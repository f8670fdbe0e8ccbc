//! Control commands sent to the headband, and recognition of a variant
//! from its advertised name.
use vstd::prelude::*;
use crate::device::MuseModel;
use vstd::string::StringSliceAdditionalSpecFns;

verus! {

/// The byte that ends every command.
pub const COMMAND_TERMINATOR: u8 = 10;

/// The packet for a textual command: a length byte (the command's length
/// plus one, modulo 256), the command's bytes, and a line feed.
pub open spec fn command_packet(bytes: Seq<u8>) -> Seq<u8> {
    seq![((bytes.len() + 1) % 256) as u8] + bytes + seq![COMMAND_TERMINATOR]
}

/// Frames a textual command for the control characteristic.
pub fn send_muse_command(command: &str) -> (r: Vec<u8>)
    ensures
        r@ == command_packet(command.spec_bytes()),
{
    let bytes = command.as_bytes();
    let mut packet: Vec<u8> = Vec::with_capacity(bytes.len() % 256 + 2);
    packet.push(((bytes.len() % 256 + 1) % 256) as u8);
    let mut i: usize = 0;
    while i < bytes.len()
        invariant
            i <= bytes@.len(),
            packet@ =~= seq![((bytes@.len() + 1) % 256) as u8] + bytes@.take(i as int),
        decreases bytes@.len() - i,
    {
        packet.push(bytes[i]);
        i = i + 1;
    }
    packet.push(COMMAND_TERMINATOR);
    assert(bytes@.take(bytes@.len() as int) =~= bytes@);
    assert(packet@ =~= command_packet(command.spec_bytes()));
    packet
}

/// The UTF-8 bytes of the lower-case form of a string given by its UTF-8
/// bytes.
pub uninterp spec fn lowercase_of(s: Seq<u8>) -> Seq<u8>;

/// Relies on `str::to_lowercase`: its result depends on the text alone.
#[verifier::external_body]
fn lowercase_bytes(s: &str) -> (r: Vec<u8>)
    ensures
        r@ == lowercase_of(s.spec_bytes()),
{
    s.to_lowercase().into_bytes()
}

/// `needle` occurs in `hay` starting at `at`.
pub open spec fn occurs_at(hay: Seq<u8>, needle: Seq<u8>, at: int) -> bool {
    0 <= at && at + needle.len() <= hay.len() && hay.subrange(at, at + needle.len()) == needle
}

/// `needle` occurs somewhere in `hay`.
pub open spec fn occurs_in(hay: Seq<u8>, needle: Seq<u8>) -> bool {
    exists|at: int| occurs_at(hay, needle, at)
}

/// Whether `needle` occurs in `hay`.
pub fn contains_bytes(hay: &[u8], needle: &[u8]) -> (r: bool)
    ensures
        r == occurs_in(hay@, needle@),
{
    let n = needle.len();
    let hlen = hay.len();
    if n == 0 {
        assert(hay@.subrange(0, 0) =~= needle@);
        assert(occurs_at(hay@, needle@, 0));
        return true;
    }
    if n > hlen {
        assert(forall|at: int| !occurs_at(hay@, needle@, at));
        return false;
    }
    let starts = hlen - n + 1;
    let mut at: usize = 0;
    while at < starts
        invariant
            n == needle@.len(),
            hlen == hay@.len(),
            starts == hlen - n + 1,
            at <= starts,
            forall|k: int| 0 <= k < at ==> !occurs_at(hay@, needle@, k),
        decreases starts - at,
    {
        let mut j: usize = 0;
        let mut same = true;
        while j < n
            invariant
                j <= n,
                n == needle@.len(),
                hlen == hay@.len(),
                at + n <= hlen,
                same == (forall|m: int| 0 <= m < j ==> hay@[at + m] == needle@[m]),
            decreases n - j,
        {
            if hay[at + j] != needle[j] {
                same = false;
            }
            j = j + 1;
        }
        if same {
            assert(hay@.subrange(at as int, at + n) =~= needle@);
            assert(occurs_at(hay@, needle@, at as int));
            return true;
        }
        assert(!occurs_at(hay@, needle@, at as int)) by {
            if occurs_at(hay@, needle@, at as int) {
                assert(forall|m: int|
                    0 <= m < n ==> hay@[at + m] == #[trigger] hay@.subrange(at as int, at + n)[m]);
            }
        }
        at = at + 1;
    }
    assert(forall|k: int| !occurs_at(hay@, needle@, k));
    false
}

/// The variant named by a lower-case device name: the first of these
/// phrases that occurs decides.
pub open spec fn spec_model_from_lowercase_name(name: Seq<u8>) -> MuseModel {
    if occurs_in(name, seq![97u8, 116, 104, 101, 110, 97]) {
        // "athena"
        MuseModel::MuseSAthena
    } else if occurs_in(name, seq![109u8, 117, 115, 101, 32, 115]) || occurs_in(
        name,
        seq![109u8, 117, 115, 101, 45, 115],
    ) {
        // "muse s", "muse-s"
        MuseModel::MuseS
    } else if occurs_in(name, seq![109u8, 117, 115, 101, 32, 50]) || occurs_in(
        name,
        seq![109u8, 117, 115, 101, 50],
    ) {
        // "muse 2", "muse2"
        MuseModel::Muse2
    } else if occurs_in(name, seq![109u8, 117, 115, 101, 32, 50, 48, 49, 54]) || occurs_in(
        name,
        seq![109u8, 117, 115, 101, 45, 50, 48, 49, 54],
    ) {
        // "muse 2016", "muse-2016"
        MuseModel::Muse2016
    } else {
        MuseModel::Unknown
    }
}

/// Recognises the variant from the UTF-8 bytes of a lower-case device name.
pub fn model_from_lowercase_name(name: &[u8]) -> (r: MuseModel)
    ensures
        r == spec_model_from_lowercase_name(name@),
{
    let athena: Vec<u8> = vec![97u8, 116, 104, 101, 110, 97];
    let muse_s: Vec<u8> = vec![109u8, 117, 115, 101, 32, 115];
    let muse_dash_s: Vec<u8> = vec![109u8, 117, 115, 101, 45, 115];
    let muse_2: Vec<u8> = vec![109u8, 117, 115, 101, 32, 50];
    let muse2: Vec<u8> = vec![109u8, 117, 115, 101, 50];
    let muse_2016: Vec<u8> = vec![109u8, 117, 115, 101, 32, 50, 48, 49, 54];
    let muse_dash_2016: Vec<u8> = vec![109u8, 117, 115, 101, 45, 50, 48, 49, 54];
    if contains_bytes(name, athena.as_slice()) {
        MuseModel::MuseSAthena
    } else if contains_bytes(name, muse_s.as_slice()) || contains_bytes(name, muse_dash_s.as_slice()) {
        MuseModel::MuseS
    } else if contains_bytes(name, muse_2.as_slice()) || contains_bytes(name, muse2.as_slice()) {
        MuseModel::Muse2
    } else if contains_bytes(name, muse_2016.as_slice()) || contains_bytes(
        name,
        muse_dash_2016.as_slice(),
    ) {
        MuseModel::Muse2016
    } else {
        MuseModel::Unknown
    }
}

/// Recognises the variant from a device name, whatever its case.
pub fn get_muse_model_from_name(name: &str) -> (r: MuseModel)
    ensures
        r == spec_model_from_lowercase_name(lowercase_of(name.spec_bytes())),
{
    let lower = lowercase_bytes(name);
    model_from_lowercase_name(lower.as_slice())
}

} // verus!
