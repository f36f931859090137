//! The byte layout of the redirector values, written with `blaze_pk`'s tagged
//! data format writer.

use vstd::prelude::*;
use vstd::string::StringSliceAdditionalSpecFns;
use blaze_pk::writer::TdfWriter;
use crate::models::InstanceDetails;

verus! {

/// The tagged data writer of `blaze_pk`, which appends encoded values to a
/// byte buffer.
#[verifier::external_type_specification]
#[verifier::external_body]
pub struct ExTdfWriter(TdfWriter);

/// The bytes a `TdfWriter` holds.
pub uninterp spec fn tdf_buffer(w: TdfWriter) -> Seq<u8>;

/// The bytes `TdfWriter::tag_str` appends for `tag` and `value`.
pub uninterp spec fn tdf_tag_str(tag: Seq<u8>, value: Seq<char>) -> Seq<u8>;

/// The bytes `TdfWriter::tag_u8` appends for `tag` and `value`.
pub uninterp spec fn tdf_tag_u8(tag: Seq<u8>, value: u8) -> Seq<u8>;

/// The bytes `TdfWriter::tag_u16` appends for `tag` and `value`.
pub uninterp spec fn tdf_tag_u16(tag: Seq<u8>, value: u16) -> Seq<u8>;

/// The bytes `TdfWriter::tag_u32` appends for `tag` and `value`.
pub uninterp spec fn tdf_tag_u32(tag: Seq<u8>, value: u32) -> Seq<u8>;

/// The bytes `TdfWriter::tag_bool` appends for `tag` and `value`.
pub uninterp spec fn tdf_tag_bool(tag: Seq<u8>, value: bool) -> Seq<u8>;

/// The bytes `TdfWriter::tag_union_start` appends for `tag` and `key`.
pub uninterp spec fn tdf_tag_union_start(tag: Seq<u8>, key: u8) -> Seq<u8>;

/// The bytes `TdfWriter::tag_union_unset` appends for `tag`.
pub uninterp spec fn tdf_tag_union_unset(tag: Seq<u8>) -> Seq<u8>;

/// The bytes `TdfWriter::tag_group` appends for `tag`.
pub uninterp spec fn tdf_tag_group(tag: Seq<u8>) -> Seq<u8>;

/// `TdfWriter::default`: a writer whose buffer is empty (the derived
/// `Default` gives an empty `Vec`).
#[verifier::external_body]
fn writer_new() -> (w: TdfWriter)
    ensures
        tdf_buffer(w) == Seq::<u8>::empty(),
{
    TdfWriter::default()
}

/// `From<TdfWriter> for Vec<u8>`: the writer's buffer.
#[verifier::external_body]
fn writer_into_bytes(w: TdfWriter) -> (v: Vec<u8>)
    ensures
        v@ == tdf_buffer(w),
{
    Vec::from(w)
}

/// `TdfWriter::tag_str`: appends the tagged string, nothing else.
#[verifier::external_body]
fn tag_str(w: &mut TdfWriter, tag: &[u8], value: &str)
    ensures
        tdf_buffer(*final(w)) == tdf_buffer(*old(w)) + tdf_tag_str(tag@, value@),
{
    w.tag_str(tag, value)
}

/// `TdfWriter::tag_u8`: appends the tagged value, nothing else.
#[verifier::external_body]
fn tag_u8(w: &mut TdfWriter, tag: &[u8], value: u8)
    ensures
        tdf_buffer(*final(w)) == tdf_buffer(*old(w)) + tdf_tag_u8(tag@, value),
{
    w.tag_u8(tag, value)
}

/// `TdfWriter::tag_u16`: appends the tagged value, nothing else.
#[verifier::external_body]
fn tag_u16(w: &mut TdfWriter, tag: &[u8], value: u16)
    ensures
        tdf_buffer(*final(w)) == tdf_buffer(*old(w)) + tdf_tag_u16(tag@, value),
{
    w.tag_u16(tag, value)
}

/// `TdfWriter::tag_u32`: appends the tagged value, nothing else.
#[verifier::external_body]
fn tag_u32(w: &mut TdfWriter, tag: &[u8], value: u32)
    ensures
        tdf_buffer(*final(w)) == tdf_buffer(*old(w)) + tdf_tag_u32(tag@, value),
{
    w.tag_u32(tag, value)
}

/// `TdfWriter::tag_bool`: appends the tagged value, nothing else.
#[verifier::external_body]
fn tag_bool(w: &mut TdfWriter, tag: &[u8], value: bool)
    ensures
        tdf_buffer(*final(w)) == tdf_buffer(*old(w)) + tdf_tag_bool(tag@, value),
{
    w.tag_bool(tag, value)
}

/// `TdfWriter::tag_union_start`: appends the union tag and its key, nothing
/// else.
#[verifier::external_body]
fn tag_union_start(w: &mut TdfWriter, tag: &[u8], key: u8)
    ensures
        tdf_buffer(*final(w)) == tdf_buffer(*old(w)) + tdf_tag_union_start(tag@, key),
{
    w.tag_union_start(tag, key)
}

/// `TdfWriter::tag_union_unset`: appends an unset union tag, nothing else.
#[verifier::external_body]
fn tag_union_unset(w: &mut TdfWriter, tag: &[u8])
    ensures
        tdf_buffer(*final(w)) == tdf_buffer(*old(w)) + tdf_tag_union_unset(tag@),
{
    w.tag_union_unset(tag)
}

/// `TdfWriter::tag_group`: appends the group's opening tag, nothing else.
#[verifier::external_body]
fn tag_group(w: &mut TdfWriter, tag: &[u8])
    ensures
        tdf_buffer(*final(w)) == tdf_buffer(*old(w)) + tdf_tag_group(tag@),
{
    w.tag_group(tag)
}

/// `TdfWriter::tag_group_end`: appends the single zero byte that closes a
/// group (its body is `self.buffer.push(0)`).
#[verifier::external_body]
fn tag_group_end(w: &mut TdfWriter)
    ensures
        tdf_buffer(*final(w)) == tdf_buffer(*old(w)).push(0u8),
{
    w.tag_group_end()
}

/// The union key of a server address in the instance details.
pub const SERVER_ADDRESS_KEY: u8 = 0x0;

/// The encoded instance details: the address union (holding the host, an
/// unset IP and the port in a group), then the SSL and XDNS flags.
pub open spec fn instance_details_bytes(d: InstanceDetails) -> Seq<u8> {
    tdf_tag_union_start("ADDR".spec_bytes(), SERVER_ADDRESS_KEY)
        + tdf_tag_group("VALU".spec_bytes())
        + tdf_tag_str("HOST".spec_bytes(), d.net.host@)
        + tdf_tag_u32("IP".spec_bytes(), 0)
        + tdf_tag_u16("PORT".spec_bytes(), d.net.port)
        + seq![0u8]
        + tdf_tag_bool("SECU".spec_bytes(), d.secure)
        + tdf_tag_bool("XDNS".spec_bytes(), false)
}

/// Writes the instance details onto `w`.
pub fn encode_instance_details(details: &InstanceDetails, w: &mut TdfWriter)
    ensures
        tdf_buffer(*final(w)) == tdf_buffer(*old(w)) + instance_details_bytes(*details),
{
    let ghost start = tdf_buffer(*w);
    tag_union_start(w, "ADDR".as_bytes(), SERVER_ADDRESS_KEY);
    tag_group(w, "VALU".as_bytes());
    tag_str(w, "HOST".as_bytes(), details.net.host.as_str());
    tag_u32(w, "IP".as_bytes(), 0);
    tag_u16(w, "PORT".as_bytes(), details.net.port);
    tag_group_end(w);
    tag_bool(w, "SECU".as_bytes(), details.secure);
    tag_bool(w, "XDNS".as_bytes(), false);
    assert(tdf_buffer(*w) =~= start + instance_details_bytes(*details));
}

/// The encoded instance request: the fixed client description the official
/// redirector expects, with an unset `FPID` union.
pub open spec fn instance_request_bytes() -> Seq<u8> {
    tdf_tag_str("BSDK".spec_bytes(), "3.15.6.0"@)
        + tdf_tag_str("BTIM".spec_bytes(), "Dec 21 2012 12:47:10"@)
        + tdf_tag_str("CLNT".spec_bytes(), "MassEffect3-ps3"@)
        + tdf_tag_u8("CLTP".spec_bytes(), 0)
        + tdf_tag_str("CSKU".spec_bytes(), "134845"@)
        + tdf_tag_str("CVER".spec_bytes(), "05427.124"@)
        + tdf_tag_str("DSDK".spec_bytes(), "8.14.7.1"@)
        + tdf_tag_str("ENV".spec_bytes(), "prod"@)
        + tdf_tag_union_unset("FPID".spec_bytes())
        + tdf_tag_u32("LOC".spec_bytes(), 0x656e4e5a)
        + tdf_tag_str("NAME".spec_bytes(), "masseffect-3-ps3"@)
        + tdf_tag_str("PLAT".spec_bytes(), "ps3"@)
        + tdf_tag_str("PROF".spec_bytes(), "standardSecure_v3"@)
}

/// Writes the instance request onto `w`.
pub fn encode_instance_request(w: &mut TdfWriter)
    ensures
        tdf_buffer(*final(w)) == tdf_buffer(*old(w)) + instance_request_bytes(),
{
    let ghost start = tdf_buffer(*w);
    tag_str(w, "BSDK".as_bytes(), "3.15.6.0");
    tag_str(w, "BTIM".as_bytes(), "Dec 21 2012 12:47:10");
    tag_str(w, "CLNT".as_bytes(), "MassEffect3-ps3");
    tag_u8(w, "CLTP".as_bytes(), 0);
    tag_str(w, "CSKU".as_bytes(), "134845");
    tag_str(w, "CVER".as_bytes(), "05427.124");
    tag_str(w, "DSDK".as_bytes(), "8.14.7.1");
    tag_str(w, "ENV".as_bytes(), "prod");
    tag_union_unset(w, "FPID".as_bytes());
    tag_u32(w, "LOC".as_bytes(), 0x656e4e5a);
    tag_str(w, "NAME".as_bytes(), "masseffect-3-ps3");
    tag_str(w, "PLAT".as_bytes(), "ps3");
    tag_str(w, "PROF".as_bytes(), "standardSecure_v3");
    assert(tdf_buffer(*w) =~= start + instance_request_bytes());
}

/// The encoded bytes of the instance details alone.
pub fn instance_details_to_bytes(details: &InstanceDetails) -> (v: Vec<u8>)
    ensures
        v@ == instance_details_bytes(*details),
{
    let mut w = writer_new();
    encode_instance_details(details, &mut w);
    assert(tdf_buffer(w) =~= instance_details_bytes(*details));
    writer_into_bytes(w)
}

/// The encoded bytes of the instance request alone.
pub fn instance_request_to_bytes() -> (v: Vec<u8>)
    ensures
        v@ == instance_request_bytes(),
{
    let mut w = writer_new();
    encode_instance_request(&mut w);
    assert(tdf_buffer(w) =~= instance_request_bytes());
    writer_into_bytes(w)
}

} // verus!
