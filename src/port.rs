use vstd::prelude::*;

verus! {

/// Manufacturer string that a target device reports, compared exactly.
pub const VENDOR: &'static str = "Arduino LLC";

/// Text that a target device's product string must contain.
pub const PRODUCT_MARK: &'static str = "Arduino";

/// Identification strings of a USB serial endpoint, as enumeration reports them.
#[derive(Debug, Clone, PartialEq, Eq)]
pub struct UsbInfo {
    pub manufacturer: Option<String>,
    pub product: Option<String>,
}

/// Kind of a discovered serial endpoint.
#[derive(Debug, Clone, PartialEq, Eq)]
pub enum PortType {
    Usb(UsbInfo),
    Other,
}

/// One serial endpoint found by enumeration.
#[derive(Debug, Clone, PartialEq, Eq)]
pub struct PortDescriptor {
    pub port_name: String,
    pub port_type: PortType,
}

/// An optional string field, with a missing value read as the empty string.
pub open spec fn text_or_empty(s: Option<String>) -> Seq<char> {
    match s {
        Some(t) => t@,
        None => Seq::empty(),
    }
}

/// `needle` occurs in `hay` as a contiguous run of characters.
pub open spec fn seq_contains(hay: Seq<char>, needle: Seq<char>) -> bool {
    exists|i: int|
        0 <= i && i + needle.len() <= hay.len() && #[trigger] hay.subrange(i, i + needle.len())
            == needle
}

/// The descriptor identifies the target device: a USB port whose manufacturer
/// equals the vendor string and whose product contains the product mark.
pub open spec fn is_target(d: PortDescriptor) -> bool {
    match d.port_type {
        PortType::Usb(info) => text_or_empty(info.manufacturer) == VENDOR@ && seq_contains(
            text_or_empty(info.product),
            PRODUCT_MARK@,
        ),
        PortType::Other => false,
    }
}

/// Index of the first target descriptor at or after `start`.
pub open spec fn first_target_from(ports: Seq<PortDescriptor>, start: int) -> Option<int>
    decreases ports.len() - start,
{
    if start < 0 || start >= ports.len() {
        None
    } else if is_target(ports[start]) {
        Some(start)
    } else {
        first_target_from(ports, start + 1)
    }
}

/// Index of the first target descriptor of the list, if any.
pub open spec fn first_target(ports: Seq<PortDescriptor>) -> Option<int> {
    first_target_from(ports, 0)
}

/// Relies on str::contains: true exactly when `needle` matches a sub-slice of `hay`.
#[verifier::external_body]
fn str_contains(hay: &str, needle: &str) -> (r: bool)
    ensures
        r == seq_contains(hay@, needle@),
{
    hay.contains(needle)
}

fn field_text(s: &Option<String>) -> (r: &str)
    ensures
        r@ == text_or_empty(*s),
{
    match s {
        Some(t) => t.as_str(),
        None => {
            proof {
                reveal_strlit("");
            }
            ""
        },
    }
}

/// Whether one descriptor identifies the target device.
pub fn is_target_port(d: &PortDescriptor) -> (r: bool)
    ensures
        r == is_target(*d),
{
    match &d.port_type {
        PortType::Usb(info) => {
            let manufacturer = field_text(&info.manufacturer);
            let product = field_text(&info.product);
            manufacturer.to_owned() == VENDOR.to_owned() && str_contains(product, PRODUCT_MARK)
        },
        PortType::Other => false,
    }
}

/// Selects the first descriptor in list order that identifies the target device.
pub fn find_arduino_port(ports: &Vec<PortDescriptor>) -> (r: Option<&PortDescriptor>)
    ensures
        match first_target(ports@) {
            None => r is None,
            Some(i) => r is Some && *r.unwrap() == ports@[i],
        },
{
    let mut k: usize = 0;
    while k < ports.len()
        invariant
            k <= ports@.len(),
            first_target_from(ports@, k as int) == first_target(ports@),
        decreases ports@.len() - k,
    {
        if is_target_port(&ports[k]) {
            return Some(&ports[k]);
        }
        k = k + 1;
    }
    None
}

proof fn lemma_no_target_from(ports: Seq<PortDescriptor>, start: int)
    requires
        0 <= start,
        forall|i: int| start <= i < ports.len() ==> !is_target(#[trigger] ports[i]),
    ensures
        first_target_from(ports, start) is None,
    decreases ports.len() - start,
{
    if start < ports.len() {
        lemma_no_target_from(ports, start + 1);
    }
}

proof fn lemma_first_target_from(ports: Seq<PortDescriptor>, start: int, k: int)
    requires
        0 <= start <= k < ports.len(),
        is_target(ports[k]),
        forall|j: int| start <= j < k ==> !is_target(#[trigger] ports[j]),
    ensures
        first_target_from(ports, start) == Some(k),
    decreases k - start,
{
    if start < k {
        lemma_first_target_from(ports, start + 1, k);
    }
}

/// A list in which no descriptor identifies the target device resolves to none.
pub proof fn lemma_no_target_resolves_none(ports: Seq<PortDescriptor>)
    requires
        forall|i: int| 0 <= i < ports.len() ==> !is_target(#[trigger] ports[i]),
    ensures
        first_target(ports) is None,
{
    lemma_no_target_from(ports, 0);
}

/// When the descriptor at `k` is a target and none before it is, resolution
/// selects `k`, whatever the non-USB or non-matching descriptors before it.
pub proof fn lemma_first_match_selected(ports: Seq<PortDescriptor>, k: int)
    requires
        0 <= k < ports.len(),
        is_target(ports[k]),
        forall|j: int| 0 <= j < k ==> !is_target(#[trigger] ports[j]),
    ensures
        first_target(ports) == Some(k),
{
    lemma_first_target_from(ports, 0, k);
}

/// A USB descriptor that lacks its manufacturer or its product string never
/// identifies the target device.
pub proof fn lemma_missing_usb_field_never_matches(d: PortDescriptor)
    requires
        d.port_type matches PortType::Usb(info) && (info.manufacturer is None
            || info.product is None),
    ensures
        !is_target(d),
{
    reveal_strlit("Arduino LLC");
    reveal_strlit("Arduino");
    if let PortType::Usb(info) = d.port_type {
        if info.manufacturer is None {
            assert(text_or_empty(info.manufacturer).len() != VENDOR@.len());
        } else {
            assert(text_or_empty(info.product).len() == 0);
            assert forall|i: int|
                0 <= i && i + PRODUCT_MARK@.len() <= text_or_empty(info.product).len() implies
                #[trigger] text_or_empty(info.product).subrange(i, i + PRODUCT_MARK@.len())
                != PRODUCT_MARK@ by {}
        }
    }
}

/// Resolution depends on the list alone: resolving the same list again gives
/// the same descriptor, or none again.
pub proof fn lemma_resolution_repeatable(first: Seq<PortDescriptor>, again: Seq<PortDescriptor>)
    requires
        first == again,
    ensures
        first_target(first) == first_target(again),
{
}

} // verus!
