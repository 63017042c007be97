use vstd::prelude::*;
use crate::config::opt_text_view;
use crate::text::{has_substring, text_contains};

verus! {

/// An attached pointing device as offered for selection.
pub struct MouseDevice {
    pub id: String,
    pub name: String,
}

/// What the HID layer reports of one device, as plain values.
pub struct HidRecord {
    pub vendor_id: u16,
    pub product_id: u16,
    pub serial_number: Option<String>,
    pub usage_page: u16,
    pub usage: u16,
    pub product_string: Option<String>,
    pub manufacturer_string: Option<String>,
}

/// HID usage page of generic desktop controls.
pub const USAGE_PAGE_GENERIC_DESKTOP: u16 = 0x01;

/// HID usage of a mouse on the generic desktop page.
pub const USAGE_MOUSE: u16 = 0x02;

/// The lower-case hexadecimal digits.
pub open spec fn hex_digits() -> Seq<char> {
    "0123456789abcdef"@
}

/// `v` as four lower-case hexadecimal digits.
pub open spec fn hex4(v: u16) -> Seq<char> {
    seq![
        hex_digits()[(v / 4096) as int],
        hex_digits()[((v / 256) % 16) as int],
        hex_digits()[((v / 16) % 16) as int],
        hex_digits()[(v % 16) as int],
    ]
}

/// The serial number, or a placeholder where the device reports none.
pub open spec fn serial_text(serial: Option<Seq<char>>) -> Seq<char> {
    match serial {
        Some(s) => s,
        None => "noserial"@,
    }
}

/// The identity of a device: `vvvv:pppp:serial`, vendor and product in hexadecimal.
pub open spec fn device_id_text(vendor_id: u16, product_id: u16, serial: Option<Seq<char>>) -> Seq<
    char,
> {
    hex4(vendor_id) + ":"@ + hex4(product_id) + ":"@ + serial_text(serial)
}

/// The product string, else the manufacturer string, else a generic name.
pub open spec fn display_name_text(product: Option<Seq<char>>, manufacturer: Option<Seq<char>>) -> Seq<
    char,
> {
    match product {
        Some(p) => p,
        None => match manufacturer {
            Some(m) => m,
            None => "Unknown Mouse"@,
        },
    }
}

/// A device is listed when it has the mouse usage and its lower-cased name does not
/// mention a trackpad.
pub open spec fn listed_usage(usage_page: u16, usage: u16, lowered_name: Seq<char>) -> bool {
    usage_page == USAGE_PAGE_GENERIC_DESKTOP && usage == USAGE_MOUSE && !has_substring(
        lowered_name,
        "trackpad"@,
    )
}

/// The lower-case form of a string, as `str::to_lowercase` computes it.
pub uninterp spec fn lower_of(s: Seq<char>) -> Seq<char>;

/// Relies on `str::to_lowercase`: its result depends on the characters of `s` alone.
#[verifier::external_body]
fn lowercase(s: &str) -> (r: String)
    ensures
        r@ == lower_of(s@),
{
    s.to_lowercase()
}

fn push_hex_digit(out: &mut String, d: u16)
    requires
        d < 16,
    ensures
        final(out)@ == old(out)@ + seq![hex_digits()[d as int]],
{
    let digits = "0123456789abcdef";
    proof {
        reveal_strlit("0123456789abcdef");
    }
    let s = digits.substring_char(d as usize, d as usize + 1);
    out.append(s);
    assert(s@ =~= seq![hex_digits()[d as int]]);
}

fn push_hex4(out: &mut String, v: u16)
    ensures
        final(out)@ == old(out)@ + hex4(v),
{
    push_hex_digit(out, v / 4096);
    push_hex_digit(out, (v / 256) % 16);
    push_hex_digit(out, (v / 16) % 16);
    push_hex_digit(out, v % 16);
    assert(final(out)@ =~= old(out)@ + hex4(v));
}

/// Derives the stable identity of a device from its vendor, product and serial number.
pub fn device_id(vendor_id: u16, product_id: u16, serial: Option<&str>) -> (r: String)
    ensures
        r@ == device_id_text(
            vendor_id,
            product_id,
            match serial {
                Some(s) => Some(s@),
                None => None,
            },
        ),
{
    let mut r = String::new();
    push_hex4(&mut r, vendor_id);
    r.append(":");
    push_hex4(&mut r, product_id);
    r.append(":");
    match serial {
        Some(s) => r.append(s),
        None => r.append("noserial"),
    }
    r
}

/// The name shown for a device: its product string, else its manufacturer string,
/// else a generic name.
pub fn display_name(product: Option<&str>, manufacturer: Option<&str>) -> (r: String)
    ensures
        r@ == display_name_text(
            match product {
                Some(s) => Some(s@),
                None => None,
            },
            match manufacturer {
                Some(s) => Some(s@),
                None => None,
            },
        ),
{
    match product {
        Some(p) => p.to_owned(),
        None => match manufacturer {
            Some(m) => m.to_owned(),
            None => "Unknown Mouse".to_owned(),
        },
    }
}

/// Whether a device with these usages and this already lower-cased name is listed.
pub fn is_mouse_entry(usage_page: u16, usage: u16, lowered_name: &str) -> (r: bool)
    ensures
        r == listed_usage(usage_page, usage, lowered_name@),
{
    usage_page == USAGE_PAGE_GENERIC_DESKTOP && usage == USAGE_MOUSE && !text_contains(
        lowered_name,
        "trackpad",
    )
}

/// Whether a device with these usages and this name is listed.
pub fn is_listed_mouse(usage_page: u16, usage: u16, name: &str) -> (r: bool)
    ensures
        r == listed_usage(usage_page, usage, lower_of(name@)),
{
    let lowered = lowercase(name);
    is_mouse_entry(usage_page, usage, lowered.as_str())
}

pub open spec fn record_name(r: HidRecord) -> Seq<char> {
    display_name_text(opt_text_view(r.product_string), opt_text_view(r.manufacturer_string))
}

pub open spec fn record_id(r: HidRecord) -> Seq<char> {
    device_id_text(r.vendor_id, r.product_id, opt_text_view(r.serial_number))
}

pub open spec fn record_listed(r: HidRecord) -> bool {
    listed_usage(r.usage_page, r.usage, lower_of(record_name(r)))
}

/// The (id, name) pairs of the listed records, in order.
pub open spec fn listing(recs: Seq<HidRecord>) -> Seq<(Seq<char>, Seq<char>)>
    decreases recs.len(),
{
    if recs.len() == 0 {
        Seq::empty()
    } else {
        let prev = listing(recs.drop_last());
        let r = recs.last();
        if record_listed(r) {
            prev.push((record_id(r), record_name(r)))
        } else {
            prev
        }
    }
}

pub open spec fn devices_view(v: Seq<MouseDevice>) -> Seq<(Seq<char>, Seq<char>)> {
    v.map_values(|d: MouseDevice| (d.id@, d.name@))
}

fn opt_as_str(o: &Option<String>) -> (r: Option<&str>)
    ensures
        match r {
            Some(s) => Some(s@),
            None => None,
        } == opt_text_view(*o),
{
    match o {
        Some(s) => Some(s.as_str()),
        None => None,
    }
}

/// The pointing devices among the enumerated HID records, in enumeration order.
pub fn list_mouse_devices(records: &Vec<HidRecord>) -> (r: Vec<MouseDevice>)
    ensures
        devices_view(r@) == listing(records@),
{
    let mut out: Vec<MouseDevice> = Vec::new();
    let mut i: usize = 0;
    while i < records.len()
        invariant
            i <= records@.len(),
            devices_view(out@) == listing(records@.subrange(0, i as int)),
        decreases records@.len() - i,
    {
        let rec = &records[i];
        let name = display_name(opt_as_str(&rec.product_string), opt_as_str(&rec.manufacturer_string));
        let keep = is_listed_mouse(rec.usage_page, rec.usage, name.as_str());
        proof {
            assert(records@.subrange(0, i + 1).drop_last() =~= records@.subrange(0, i as int));
        }
        if keep {
            let id = device_id(rec.vendor_id, rec.product_id, opt_as_str(&rec.serial_number));
            out.push(MouseDevice { id, name });
            proof {
                assert(devices_view(out@) =~= listing(records@.subrange(0, i + 1)));
            }
        }
        i = i + 1;
    }
    assert(records@.subrange(0, records@.len() as int) =~= records@);
    out
}

} // verus!
