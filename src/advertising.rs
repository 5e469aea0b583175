use vstd::prelude::*;

verus! {

/// Largest legacy advertising or scan-response payload, in bytes.
pub const MAX_ADV_PAYLOAD: usize = 31;
/// AD type of the flags structure.
pub const AD_TYPE_FLAGS: u8 = 0x01;
/// AD type of a shortened local name.
pub const AD_TYPE_SHORT_NAME: u8 = 0x08;
/// AD type of a complete local name.
pub const AD_TYPE_COMPLETE_NAME: u8 = 0x09;
/// Flags: LE General Discoverable Mode, BR/EDR not supported.
pub const ADV_FLAGS: u8 = 0x06;

/// One AD structure: a length byte that counts the type and the data, the
/// type, then the data.
pub open spec fn spec_ad_structure(ad_type: u8, data: Seq<u8>) -> Seq<u8> {
    seq![(data.len() + 1) as u8, ad_type] + data
}

/// The advertising payload: the flags, then the shortened name.
pub open spec fn spec_advertising_data(short_name: Seq<u8>) -> Seq<u8> {
    spec_ad_structure(AD_TYPE_FLAGS, seq![ADV_FLAGS]) + spec_ad_structure(
        AD_TYPE_SHORT_NAME,
        short_name,
    )
}

/// The scan response payload: the complete name.
pub open spec fn spec_scan_response(name: Seq<u8>) -> Seq<u8> {
    spec_ad_structure(AD_TYPE_COMPLETE_NAME, name)
}

/// The name under which the rover is known: "RustyRover".
pub open spec fn spec_device_name() -> Seq<u8> {
    seq![82u8, 117, 115, 116, 121, 82, 111, 118, 101, 114]
}

/// The shortened name that the advertising payload carries: "Rusty".
pub open spec fn spec_short_name() -> Seq<u8> {
    spec_device_name().take(5)
}

/// Builds one AD structure.
pub fn ad_structure(ad_type: u8, data: &[u8]) -> (r: Vec<u8>)
    requires
        data@.len() < 255,
    ensures
        r@ == spec_ad_structure(ad_type, data@),
{
    let mut r: Vec<u8> = Vec::new();
    r.push((data.len() + 1) as u8);
    r.push(ad_type);
    let mut i: usize = 0;
    while i < data.len()
        invariant
            i <= data@.len(),
            data@.len() < 255,
            r@ == seq![(data@.len() + 1) as u8, ad_type] + data@.take(i as int),
        decreases data@.len() - i,
    {
        r.push(data[i]);
        i = i + 1;
        proof {
            assert(data@.take(i as int) == data@.take(i - 1) + seq![data@[i - 1]]);
        }
    }
    proof {
        assert(data@.take(i as int) =~= data@);
    }
    r
}

/// The advertising payload for a shortened name, or none when it would not
/// fit in `MAX_ADV_PAYLOAD` bytes.
pub fn advertising_data(short_name: &[u8]) -> (r: Option<Vec<u8>>)
    ensures
        short_name@.len() + 5 <= MAX_ADV_PAYLOAD ==> (r matches Some(v) && v@ == spec_advertising_data(
            short_name@,
        )),
        short_name@.len() + 5 > MAX_ADV_PAYLOAD ==> r is None,
{
    if short_name.len() > MAX_ADV_PAYLOAD - 5 {
        return None;
    }
    let flags: [u8; 1] = [ADV_FLAGS];
    let mut r = ad_structure(AD_TYPE_FLAGS, flags.as_slice());
    let mut name = ad_structure(AD_TYPE_SHORT_NAME, short_name);
    proof {
        assert(flags@ == seq![ADV_FLAGS]);
    }
    r.append(&mut name);
    Some(r)
}

/// The scan response payload for a name, or none when it would not fit in
/// `MAX_ADV_PAYLOAD` bytes.
pub fn scan_response(name: &[u8]) -> (r: Option<Vec<u8>>)
    ensures
        name@.len() + 2 <= MAX_ADV_PAYLOAD ==> (r matches Some(v) && v@ == spec_scan_response(
            name@,
        )),
        name@.len() + 2 > MAX_ADV_PAYLOAD ==> r is None,
{
    if name.len() > MAX_ADV_PAYLOAD - 2 {
        return None;
    }
    Some(ad_structure(AD_TYPE_COMPLETE_NAME, name))
}

/// The device name, "RustyRover".
pub fn device_name() -> (r: Vec<u8>)
    ensures
        r@ == spec_device_name(),
{
    let r: Vec<u8> = vec![82u8, 117, 115, 116, 121, 82, 111, 118, 101, 114];
    proof {
        assert(r@ =~= spec_device_name());
    }
    r
}

/// The shortened name, "Rusty".
pub fn short_name() -> (r: Vec<u8>)
    ensures
        r@ == spec_short_name(),
{
    let r: Vec<u8> = vec![82u8, 117, 115, 116, 121];
    proof {
        assert(r@ =~= spec_short_name());
    }
    r
}

} // verus!
