use vstd::prelude::*;

verus! {

/// Length of the format tag that opens every container.
pub const TAG_LEN: usize = 4;
/// Length of the key-derivation salt in a sealed container.
pub const SALT_LEN: usize = 16;
/// Length of the cipher nonce in a sealed container.
pub const NONCE_LEN: usize = 12;
/// Length of the authentication tag that ends a sealed body.
pub const AUTH_TAG_LEN: usize = 16;
/// Offset of the sealed body: tag, salt and nonce come before it.
pub const BODY_OFFSET: usize = TAG_LEN + SALT_LEN + NONCE_LEN;
/// Shortest sealed container: header and an authentication tag.
pub const MIN_SEALED_LEN: usize = BODY_OFFSET + AUTH_TAG_LEN;

/// Last byte of the tag of a plain container ("RVP0").
pub const PLAIN_VERSION: u8 = 0x30;
/// Last byte of the tag of a sealed container ("RVP1").
pub const SEALED_VERSION: u8 = 0x31;

/// The four tag bytes: ASCII "RVP" and a version digit.
pub open spec fn tag_of(version: u8) -> Seq<u8> {
    seq![0x52u8, 0x56u8, 0x50u8, version]
}

pub open spec fn plain_tag() -> Seq<u8> {
    tag_of(PLAIN_VERSION)
}

pub open spec fn sealed_tag() -> Seq<u8> {
    tag_of(SEALED_VERSION)
}

/// Whether `data` opens with `tag`.
pub open spec fn starts_with_tag(data: Seq<u8>, tag: Seq<u8>) -> bool {
    data.len() >= TAG_LEN && data.subrange(0, TAG_LEN as int) == tag
}

/// A plain container: the plain tag, then the payload as it is.
pub open spec fn plain_container(payload: Seq<u8>) -> Seq<u8> {
    plain_tag() + payload
}

/// A sealed container: the sealed tag, salt, nonce, then the sealed body.
pub open spec fn sealed_container(salt: Seq<u8>, nonce: Seq<u8>, body: Seq<u8>) -> Seq<u8> {
    sealed_tag() + salt + nonce + body
}

pub open spec fn salt_of(data: Seq<u8>) -> Seq<u8> {
    data.subrange(TAG_LEN as int, (TAG_LEN + SALT_LEN) as int)
}

pub open spec fn nonce_of(data: Seq<u8>) -> Seq<u8> {
    data.subrange((TAG_LEN + SALT_LEN) as int, BODY_OFFSET as int)
}

pub open spec fn body_of(data: Seq<u8>) -> Seq<u8> {
    data.subrange(BODY_OFFSET as int, data.len() as int)
}

/// How the bytes of a container are to be read, as its tag decides.
pub enum Layout {
    /// No known tag (this includes buffers shorter than a tag).
    Unrecognized,
    /// A plain container and its payload.
    Plain { payload: Vec<u8> },
    /// A sealed tag on a buffer too short to hold salt, nonce and auth tag.
    Truncated,
    /// A sealed container, cut at its fixed offsets.
    Sealed { salt: Vec<u8>, nonce: Vec<u8>, body: Vec<u8> },
}

/// Appends `src` to `out`.
pub fn append_bytes(out: &mut Vec<u8>, src: &[u8])
    ensures
        final(out)@ == old(out)@ + src@,
{
    let mut i: usize = 0;
    while i < src.len()
        invariant
            i <= src@.len(),
            out@ == old(out)@ + src@.subrange(0, i as int),
        decreases src@.len() - i,
    {
        out.push(src[i]);
        i = i + 1;
        assert(out@ =~= old(out)@ + src@.subrange(0, i as int));
    }
    assert(src@.subrange(0, i as int) =~= src@);
}

/// Appends the four tag bytes for `version`.
fn push_tag(out: &mut Vec<u8>, version: u8)
    ensures
        final(out)@ == old(out)@ + tag_of(version),
{
    out.push(0x52u8);
    out.push(0x56u8);
    out.push(0x50u8);
    out.push(version);
    assert(out@ =~= old(out)@ + tag_of(version));
}

/// The plain container that holds `payload`.
pub fn encode_plain(payload: &[u8]) -> (r: Vec<u8>)
    ensures
        r@ == plain_container(payload@),
{
    let mut out: Vec<u8> = Vec::new();
    push_tag(&mut out, PLAIN_VERSION);
    append_bytes(&mut out, payload);
    out
}

/// The sealed container made of `salt`, `nonce` and the sealed `body`.
pub fn assemble_sealed(salt: &[u8], nonce: &[u8], body: &[u8]) -> (r: Vec<u8>)
    ensures
        r@ == sealed_container(salt@, nonce@, body@),
{
    let mut out: Vec<u8> = Vec::new();
    push_tag(&mut out, SEALED_VERSION);
    append_bytes(&mut out, salt);
    append_bytes(&mut out, nonce);
    append_bytes(&mut out, body);
    out
}

/// Whether `data` opens with the tag for `version`.
fn has_tag(data: &[u8], version: u8) -> (r: bool)
    ensures
        r == starts_with_tag(data@, tag_of(version)),
{
    if data.len() < TAG_LEN {
        return false;
    }
    let r = data[0] == 0x52u8 && data[1] == 0x56u8 && data[2] == 0x50u8 && data[3] == version;
    assert(r ==> data@.subrange(0, 4) =~= tag_of(version));
    assert(data@.subrange(0, 4) == tag_of(version) ==> data@.subrange(0, 4)[3] == version
        && data@.subrange(0, 4)[0] == 0x52u8 && data@.subrange(0, 4)[1] == 0x56u8
        && data@.subrange(0, 4)[2] == 0x50u8);
    r
}

/// Reads the tag of `data` and cuts the rest at the offsets that the tag fixes.
pub fn parse(data: &[u8]) -> (r: Layout)
    ensures
        starts_with_tag(data@, plain_tag()) ==> (r matches Layout::Plain { payload }
            && payload@ == data@.subrange(TAG_LEN as int, data@.len() as int)),
        starts_with_tag(data@, sealed_tag()) && data@.len() < MIN_SEALED_LEN ==> r
            is Truncated,
        starts_with_tag(data@, sealed_tag()) && data@.len() >= MIN_SEALED_LEN ==> (
        r matches Layout::Sealed { salt, nonce, body } && salt@ == salt_of(data@) && nonce@
            == nonce_of(data@) && body@ == body_of(data@)),
        !starts_with_tag(data@, plain_tag()) && !starts_with_tag(data@, sealed_tag()) ==> r
            is Unrecognized,
{
    if has_tag(data, PLAIN_VERSION) {
        let rest = vstd::slice::slice_subrange(data, TAG_LEN, data.len());
        Layout::Plain { payload: vstd::slice::slice_to_vec(rest) }
    } else if has_tag(data, SEALED_VERSION) {
        if data.len() < MIN_SEALED_LEN {
            Layout::Truncated
        } else {
            let salt = vstd::slice::slice_subrange(data, TAG_LEN, TAG_LEN + SALT_LEN);
            let nonce = vstd::slice::slice_subrange(data, TAG_LEN + SALT_LEN, BODY_OFFSET);
            let body = vstd::slice::slice_subrange(data, BODY_OFFSET, data.len());
            Layout::Sealed {
                salt: vstd::slice::slice_to_vec(salt),
                nonce: vstd::slice::slice_to_vec(nonce),
                body: vstd::slice::slice_to_vec(body),
            }
        }
    } else {
        Layout::Unrecognized
    }
}

} // verus!
