use vstd::prelude::*;

verus! {

/// The canned response served to every completed request:
/// `HTTP/1.1 200 OK\r\nContent-Length: 12\r\nConnection: close\r\n\r\nHello world!`
/// (70 bytes; the body is the 12 bytes `Hello world!`).
pub open spec fn canned_response() -> Seq<u8> {
    seq![
        72u8, 84u8, 84u8, 80u8, 47u8, 49u8, 46u8, 49u8, 32u8, 50u8,
        48u8, 48u8, 32u8, 79u8, 75u8, 13u8, 10u8, 67u8, 111u8, 110u8,
        116u8, 101u8, 110u8, 116u8, 45u8, 76u8, 101u8, 110u8, 103u8, 116u8,
        104u8, 58u8, 32u8, 49u8, 50u8, 13u8, 10u8, 67u8, 111u8, 110u8,
        110u8, 101u8, 99u8, 116u8, 105u8, 111u8, 110u8, 58u8, 32u8, 99u8,
        108u8, 111u8, 115u8, 101u8, 13u8, 10u8, 13u8, 10u8, 72u8, 101u8,
        108u8, 108u8, 111u8, 32u8, 119u8, 111u8, 114u8, 108u8, 100u8, 33u8,
    ]
}

/// Builds the canned response as a byte vector.
pub fn response_bytes() -> (v: Vec<u8>)
    ensures
        v@ =~= canned_response(),
        v@.len() == 70,
{
    let mut v: Vec<u8> = Vec::new();
    v.push(72); v.push(84); v.push(84); v.push(80); v.push(47); v.push(49); v.push(46); v.push(49); v.push(32); v.push(50);
    v.push(48); v.push(48); v.push(32); v.push(79); v.push(75); v.push(13); v.push(10); v.push(67); v.push(111); v.push(110);
    v.push(116); v.push(101); v.push(110); v.push(116); v.push(45); v.push(76); v.push(101); v.push(110); v.push(103); v.push(116);
    v.push(104); v.push(58); v.push(32); v.push(49); v.push(50); v.push(13); v.push(10); v.push(67); v.push(111); v.push(110);
    v.push(110); v.push(101); v.push(99); v.push(116); v.push(105); v.push(111); v.push(110); v.push(58); v.push(32); v.push(99);
    v.push(108); v.push(111); v.push(115); v.push(101); v.push(13); v.push(10); v.push(13); v.push(10); v.push(72); v.push(101);
    v.push(108); v.push(108); v.push(111); v.push(32); v.push(119); v.push(111); v.push(114); v.push(108); v.push(100); v.push(33);
    v
}

} // verus!
