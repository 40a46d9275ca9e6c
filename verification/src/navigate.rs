//! The chain navigator: stepping from one node to the next, walking a whole
//! chain, and summing its byte length, with a bounds check on every header
//! read and no stored node count.
//!
//! Traversal policy: an `End` node ends traversal unless its sub-type is
//! `EndInstance` (an instance separator, after which more nodes follow).  An
//! `End` node with an unrecognized sub-type therefore ends traversal, like
//! the chain terminator `EndEntire` does.  Nodes of any other major type,
//! recognized or not, are skipped by their declared length.

use vstd::prelude::*;

use crate::codec::total_at;
use crate::error::DevicePathError;

verus! {

/// A readable node starts at `off`: its 4-byte header lies inside the
/// buffer, declares at least the header's own size, and its whole extent
/// stays inside the buffer.
pub open spec fn header_ok_at(s: Seq<u8>, off: int) -> bool {
    &&& 0 <= off
    &&& off + 4 <= s.len()
    &&& total_at(s, off) >= 4
    &&& off + total_at(s, off) <= s.len()
}

/// The node at `off` ends traversal: an `End` node whose sub-type is not
/// `EndInstance`.
pub open spec fn is_terminal_at(s: Seq<u8>, off: int) -> bool {
    s[off] == 0x7f && s[off + 1] != 0x01
}

/// The node at `off` is the chain terminator `End` / `EndEntire`.
pub open spec fn is_end_entire_at(s: Seq<u8>, off: int) -> bool {
    s[off] == 0x7f && s[off + 1] == 0xff
}

/// What a traversal starting at `off` yields: the offsets of the nodes it
/// visits, in order, ending with the node at which it stops; or the first
/// failure it meets on the way.
pub open spec fn walk_result(s: Seq<u8>, off: int) -> Result<Seq<int>, DevicePathError>
    decreases s.len() - off,
{
    if off < 0 || off + 4 > s.len() {
        Err(DevicePathError::TruncatedHeader)
    } else if total_at(s, off) < 4 {
        Err(DevicePathError::InvalidLength)
    } else if off + total_at(s, off) > s.len() {
        Err(DevicePathError::TruncatedHeader)
    } else if is_terminal_at(s, off) {
        Ok(seq![off])
    } else {
        match walk_result(s, off + total_at(s, off)) {
            Ok(t) => Ok(seq![off] + t),
            Err(e) => Err(e),
        }
    }
}

/// What summing the visited nodes' total lengths yields: the number of
/// bytes the chain occupies from `off`, terminator included; or the first
/// failure the traversal meets.
pub open spec fn chain_len_result(s: Seq<u8>, off: int) -> Result<int, DevicePathError>
    decreases s.len() - off,
{
    if off < 0 || off + 4 > s.len() {
        Err(DevicePathError::TruncatedHeader)
    } else if total_at(s, off) < 4 {
        Err(DevicePathError::InvalidLength)
    } else if off + total_at(s, off) > s.len() {
        Err(DevicePathError::TruncatedHeader)
    } else if is_terminal_at(s, off) {
        Ok(total_at(s, off))
    } else {
        match chain_len_result(s, off + total_at(s, off)) {
            Ok(n) => Ok(total_at(s, off) + n),
            Err(e) => Err(e),
        }
    }
}

/// A well-formed chain occupies the buffer from `off` to its end: node
/// follows node, and the last node — reached exactly at the last 4 bytes —
/// is the terminator `End` / `EndEntire` with an empty payload.
pub open spec fn chain_wf_at(s: Seq<u8>, off: int) -> bool
    decreases s.len() - off,
{
    &&& header_ok_at(s, off)
    &&& if is_terminal_at(s, off) {
        &&& is_end_entire_at(s, off)
        &&& total_at(s, off) == 4
        &&& off + 4 == s.len()
    } else {
        chain_wf_at(s, off + total_at(s, off))
    }
}

/// Reads the header at `off` and names the node that follows it: `None`
/// when the node at `off` ends traversal, `Some(off + total_length)`
/// otherwise.  Fails like `read_header`, and with `TruncatedHeader` when
/// the node's declared extent runs past the buffer's end.
pub fn next(buf: &Vec<u8>, off: usize) -> (r: Result<Option<usize>, DevicePathError>)
    ensures
        off + 4 > buf@.len() ==> r == Err::<Option<usize>, _>(DevicePathError::TruncatedHeader),
        off + 4 <= buf@.len() && total_at(buf@, off as int) < 4 ==> r == Err::<Option<usize>, _>(
            DevicePathError::InvalidLength,
        ),
        off + 4 <= buf@.len() && total_at(buf@, off as int) >= 4 && off + total_at(
            buf@,
            off as int,
        ) > buf@.len() ==> r == Err::<Option<usize>, _>(DevicePathError::TruncatedHeader),
        header_ok_at(buf@, off as int) && is_terminal_at(buf@, off as int) ==> r == Ok::<
            _,
            DevicePathError,
        >(None::<usize>),
        header_ok_at(buf@, off as int) && !is_terminal_at(buf@, off as int) ==> (r matches Ok(o)
            && o matches Some(nx) && nx == off + total_at(buf@, off as int)),
{
    if buf.len() < 4 || off > buf.len() - 4 {
        return Err(DevicePathError::TruncatedHeader);
    }
    let lo = buf[off + 2];
    let hi = buf[off + 3];
    let total: usize = lo as usize + 256 * (hi as usize);
    if total < 4 {
        return Err(DevicePathError::InvalidLength);
    }
    if total > buf.len() - off {
        return Err(DevicePathError::TruncatedHeader);
    }
    if buf[off] == 0x7f && buf[off + 1] != 0x01 {
        Ok(None)
    } else {
        Ok(Some(off + total))
    }
}

/// Walks the chain from `off`, visiting node after node until a node ends
/// traversal, and returns the visited offsets in order, the ending node
/// included.  Restartable: it needs nothing but the buffer and a starting
/// offset.  Fails where `next` first fails.
pub fn walk(buf: &Vec<u8>, off: usize) -> (r: Result<Vec<usize>, DevicePathError>)
    ensures
        match walk_result(buf@, off as int) {
            Ok(sq) => r matches Ok(v) && v@.map_values(|x: usize| x as int) == sq,
            Err(e) => r == Err::<Vec<usize>, _>(e),
        },
{
    let mut cur = off;
    let mut out: Vec<usize> = Vec::new();
    loop
        invariant
            match walk_result(buf@, cur as int) {
                Ok(sq) => walk_result(buf@, off as int) == Ok::<_, DevicePathError>(
                    out@.map_values(|x: usize| x as int) + sq,
                ),
                Err(e) => walk_result(buf@, off as int) == Err::<Seq<int>, _>(e),
            },
        decreases buf@.len() - cur,
    {
        let step = next(buf, cur);
        match step {
            Err(e) => {
                return Err(e);
            },
            Ok(None) => {
                let ghost prev = out@;
                out.push(cur);
                proof {
                    assert(out@.map_values(|x: usize| x as int) =~= prev.map_values(
                        |x: usize| x as int,
                    ).push(cur as int));
                }
                return Ok(out);
            },
            Ok(Some(nx)) => {
                let ghost prev = out@;
                out.push(cur);
                proof {
                    let pm = prev.map_values(|x: usize| x as int);
                    assert(out@.map_values(|x: usize| x as int) =~= pm.push(cur as int));
                    match walk_result(buf@, nx as int) {
                        Ok(t) => {
                            assert(pm + (seq![cur as int] + t) =~= pm.push(cur as int) + t);
                        },
                        Err(_) => {},
                    }
                }
                cur = nx;
            },
        }
    }
}

impl crate::codec::DevicePath {
    /// Walks the chain in `buf` from `off`, as the free `walk` does: the
    /// visited node offsets in order, the ending node included.
    pub fn walk(buf: &Vec<u8>, off: usize) -> (r: Result<Vec<usize>, DevicePathError>)
        ensures
            match walk_result(buf@, off as int) {
                Ok(sq) => r matches Ok(v) && v@.map_values(|x: usize| x as int) == sq,
                Err(e) => r == Err::<Vec<usize>, _>(e),
            },
    {
        walk(buf, off)
    }
}

/// Sums `total_length` over every node that `walk` visits from `off`, the
/// ending node included.  Fails where `walk` fails.
pub fn chain_byte_length(buf: &Vec<u8>, off: usize) -> (r: Result<usize, DevicePathError>)
    ensures
        match chain_len_result(buf@, off as int) {
            Ok(n) => r == Ok::<_, DevicePathError>(n as usize),
            Err(e) => r == Err::<usize, _>(e),
        },
{
    let mut cur = off;
    loop
        invariant
            cur >= off,
            match chain_len_result(buf@, cur as int) {
                Ok(n) => chain_len_result(buf@, off as int) == Ok::<_, DevicePathError>(
                    (cur - off) + n,
                ),
                Err(e) => chain_len_result(buf@, off as int) == Err::<int, _>(e),
            },
        decreases buf@.len() - cur,
    {
        if buf.len() < 4 || cur > buf.len() - 4 {
            return Err(DevicePathError::TruncatedHeader);
        }
        let lo = buf[cur + 2];
        let hi = buf[cur + 3];
        let total: usize = lo as usize + 256 * (hi as usize);
        if total < 4 {
            return Err(DevicePathError::InvalidLength);
        }
        if total > buf.len() - cur {
            return Err(DevicePathError::TruncatedHeader);
        }
        if buf[cur] == 0x7f && buf[cur + 1] != 0x01 {
            return Ok(cur - off + total);
        }
        cur = cur + total;
    }
}

/// Walking a well-formed chain succeeds: the visited offsets start at
/// `off`, and the last visited node is the terminator `End` / `EndEntire`
/// in the buffer's last 4 bytes.
pub proof fn lemma_walk_of_chain(s: Seq<u8>, off: int)
    requires
        chain_wf_at(s, off),
    ensures
        walk_result(s, off) matches Ok(v) && v.len() >= 1 && v[0] == off && v.last() == s.len() - 4
            && is_end_entire_at(s, s.len() - 4) && total_at(s, s.len() - 4) == 4,
    decreases s.len() - off,
{
    if !is_terminal_at(s, off) {
        lemma_walk_of_chain(s, off + total_at(s, off));
    }
}

/// The byte length of a well-formed chain is exactly the buffer space from
/// `off` to the buffer's end.
pub proof fn lemma_chain_len_of_chain(s: Seq<u8>, off: int)
    requires
        chain_wf_at(s, off),
    ensures
        chain_len_result(s, off) == Ok::<int, DevicePathError>(s.len() - off),
    decreases s.len() - off,
{
    if !is_terminal_at(s, off) {
        lemma_chain_len_of_chain(s, off + total_at(s, off));
    }
}

/// Chain well-formedness reads only the bytes from the chain's start on:
/// prepending bytes moves it by their number.
pub proof fn lemma_chain_wf_shift(pre: Seq<u8>, s: Seq<u8>, off: int)
    requires
        0 <= off,
    ensures
        chain_wf_at(pre + s, pre.len() + off) == chain_wf_at(s, off),
    decreases s.len() - off,
{
    let c = pre + s;
    let d = pre.len() as int;
    if header_ok_at(s, off) {
        assert(total_at(c, d + off) == total_at(s, off));
        if !is_terminal_at(s, off) {
            lemma_chain_wf_shift(pre, s, off + total_at(s, off));
        }
    } else {
        assert(!header_ok_at(c, d + off));
    }
}

/// A traversal reads only the bytes from its starting offset on:
/// prepending bytes moves every visited offset by their number and keeps
/// any failure as it is.
pub proof fn lemma_walk_result_shift(pre: Seq<u8>, s: Seq<u8>, off: int)
    requires
        0 <= off,
    ensures
        walk_result(s, off) matches Err(e) ==> walk_result(pre + s, pre.len() + off) == Err::<
            Seq<int>,
            _,
        >(e),
        walk_result(s, off) matches Ok(v) ==> walk_result(pre + s, pre.len() + off) == Ok::<
            _,
            DevicePathError,
        >(v.map_values(|x: int| x + pre.len())),
    decreases s.len() - off,
{
    let c = pre + s;
    let d = pre.len() as int;
    if off + 4 > s.len() {
    } else if total_at(s, off) < 4 {
        assert(total_at(c, d + off) == total_at(s, off));
    } else if off + total_at(s, off) > s.len() {
        assert(total_at(c, d + off) == total_at(s, off));
    } else {
        assert(total_at(c, d + off) == total_at(s, off));
        if is_terminal_at(s, off) {
            assert(seq![off].map_values(|x: int| x + d) =~= seq![d + off]);
        } else {
            lemma_walk_result_shift(pre, s, off + total_at(s, off));
            match walk_result(s, off + total_at(s, off)) {
                Ok(t) => {
                    assert((seq![off] + t).map_values(|x: int| x + d) =~= seq![d + off]
                        + t.map_values(|x: int| x + d));
                },
                Err(_) => {},
            }
        }
    }
}

} // verus!
