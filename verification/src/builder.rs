//! The chain builder: stamping one, two, or many typed nodes into a single
//! contiguous buffer, always closed by an `End` / `EndEntire` terminator,
//! and concatenating two chains into a new one.
//!
//! A built chain lives in one owned buffer, `DevicePathBox`, whose content
//! is immutable once built: the only combination operation, `append`,
//! reads both inputs and produces a brand-new buffer.

use vstd::prelude::*;

use crate::codec::lemma_le16_roundtrip;
use crate::codec::node_bytes;
use crate::codec::read_header;
use crate::codec::stamp;
use crate::codec::terminator_bytes;
use crate::codec::total_at;
use crate::codec::DevicePath;
use crate::codec::MAX_PAYLOAD_LEN;
use crate::error::DevicePathError;
use crate::navigate::chain_len_result;
use crate::navigate::chain_wf_at;
use crate::navigate::header_ok_at;
use crate::navigate::is_end_entire_at;
use crate::navigate::is_terminal_at;
use crate::navigate::lemma_chain_len_of_chain;
use crate::navigate::lemma_chain_wf_shift;
use crate::navigate::lemma_walk_of_chain;
use crate::navigate::lemma_walk_result_shift;
use crate::navigate::walk_result;
use crate::payload::Payload;
use crate::tags::DeviceType;

verus! {

/// What one buildable node holds, seen from specifications: its tag and its
/// payload bytes.
pub struct NodeView {
    /// The major type code.
    pub device_type: u8,
    /// The sub-type code.
    pub sub_type: u8,
    /// The payload bytes.
    pub payload: Seq<u8>,
}

impl NodeView {
    /// A node the builder may stamp: its payload fits the 16-bit length
    /// field, and its tag is not a traversal-ending `End` record (the
    /// builder stamps the chain's terminator itself; an instance separator
    /// `End` / `EndInstance` may stand as a node).
    pub open spec fn wf(self) -> bool {
        &&& self.payload.len() <= MAX_PAYLOAD_LEN
        &&& (self.device_type != 0x7f || self.sub_type == 0x01)
    }

    /// The node's wire encoding.
    pub open spec fn node_bytes(self) -> Seq<u8> {
        node_bytes(self.device_type, self.sub_type, self.payload)
    }
}

/// One typed node, encoded and checked, awaiting placement into a chain.
pub struct DevicePathPayload {
    device_type: u8,
    sub_type: u8,
    payload: Vec<u8>,
}

impl View for DevicePathPayload {
    type V = NodeView;

    closed spec fn view(&self) -> NodeView {
        NodeView {
            device_type: self.device_type,
            sub_type: self.sub_type,
            payload: self.payload@,
        }
    }
}

impl DevicePathPayload {
    #[verifier::type_invariant]
    closed spec fn type_inv(self) -> bool {
        self@.wf()
    }

    /// Encodes a typed payload under its tag, checking that the payload
    /// fits the 16-bit length budget (`PayloadTooLarge` otherwise) and that
    /// the tag can stand as a node in a chain: an `End` tag other than the
    /// instance separator would end traversal early and is refused as
    /// `WrongShapeForTag`.
    pub fn create<T: Payload>(device_type: DeviceType, sub_type: u8, payload: T) -> (r: Result<
        DevicePathPayload,
        DevicePathError,
    >)
        ensures
            device_type == DeviceType::End && sub_type != 0x01 ==> r == Err::<
                DevicePathPayload,
                _,
            >(DevicePathError::WrongShapeForTag),
            !(device_type == DeviceType::End && sub_type != 0x01) && payload.bytes().len()
                > MAX_PAYLOAD_LEN ==> r == Err::<DevicePathPayload, _>(
                DevicePathError::PayloadTooLarge,
            ),
            !(device_type == DeviceType::End && sub_type != 0x01) && payload.bytes().len()
                <= MAX_PAYLOAD_LEN ==> (r matches Ok(p) && p@ == NodeView {
                device_type: device_type.as_byte(),
                sub_type: sub_type,
                payload: payload.bytes(),
            }),
    {
        proof {
            assert(device_type.as_byte() == 0x7f <==> device_type == DeviceType::End);
        }
        if device_type.to_u8() == 0x7f && sub_type != 0x01 {
            return Err(DevicePathError::WrongShapeForTag);
        }
        let bytes = payload.encode();
        if bytes.len() > MAX_PAYLOAD_LEN {
            return Err(DevicePathError::PayloadTooLarge);
        }
        Ok(DevicePathPayload { device_type: device_type.to_u8(), sub_type, payload: bytes })
    }

    /// The node's encoded size: its 4-byte header plus its payload.
    pub fn len(&self) -> (r: usize)
        ensures
            r == 4 + self@.payload.len(),
    {
        proof {
            use_type_invariant(self);
        }
        4 + self.payload.len()
    }
}

/// The views of a list of buildable nodes.
pub open spec fn views_of(items: Seq<DevicePathPayload>) -> Seq<NodeView> {
    items.map_values(|p: DevicePathPayload| p@)
}

/// The wire encoding of a list of nodes, laid out back to back in order.
pub open spec fn items_bytes(items: Seq<NodeView>) -> Seq<u8>
    decreases items.len(),
{
    if items.len() == 0 {
        Seq::empty()
    } else {
        items[0].node_bytes() + items_bytes(items.drop_first())
    }
}

/// The encoded sizes of a list of nodes, summed: each node takes its
/// payload plus a 4-byte header.
pub open spec fn sum_node_sizes(items: Seq<NodeView>) -> int
    decreases items.len(),
{
    if items.len() == 0 {
        0int
    } else {
        (4 + items[0].payload.len()) + sum_node_sizes(items.drop_first())
    }
}

/// Where each node of a list comes to lie when the list is laid out from
/// `base`: the running sum of the preceding nodes' sizes.
pub open spec fn item_offsets(items: Seq<NodeView>, base: int) -> Seq<int>
    decreases items.len(),
{
    if items.len() == 0 {
        Seq::empty()
    } else {
        seq![base] + item_offsets(items.drop_first(), base + items[0].node_bytes().len())
    }
}

/// A list of one node encodes to that node's bytes alone.
pub proof fn lemma_items_bytes_single(v: NodeView)
    ensures
        items_bytes(seq![v]) == v.node_bytes(),
{
    assert(seq![v].drop_first() =~= Seq::<NodeView>::empty());
    assert(items_bytes(Seq::<NodeView>::empty()) == Seq::<u8>::empty());
    assert(items_bytes(seq![v]) =~= v.node_bytes());
}

/// Appending a node to a list appends its encoding to the list's encoding.
pub proof fn lemma_items_bytes_push(items: Seq<NodeView>, x: NodeView)
    ensures
        items_bytes(items.push(x)) == items_bytes(items) + x.node_bytes(),
    decreases items.len(),
{
    if items.len() == 0 {
        assert(items.push(x) =~= seq![x]);
        lemma_items_bytes_single(x);
        assert(items_bytes(items) == Seq::<u8>::empty());
        assert(items_bytes(items.push(x)) =~= items_bytes(items) + x.node_bytes());
    } else {
        assert(items.push(x).drop_first() =~= items.drop_first().push(x));
        lemma_items_bytes_push(items.drop_first(), x);
        assert(items_bytes(items.push(x)) =~= items_bytes(items) + x.node_bytes());
    }
}

/// A list's encoding is as long as its nodes' sizes summed.
pub proof fn lemma_items_bytes_len(items: Seq<NodeView>)
    ensures
        items_bytes(items).len() == sum_node_sizes(items),
    decreases items.len(),
{
    if items.len() > 0 {
        lemma_items_bytes_len(items.drop_first());
    }
}

/// A list of well-formed nodes, encoded back to back and closed by the
/// terminator, is a well-formed chain.
pub proof fn lemma_items_chain_wf(items: Seq<NodeView>)
    requires
        forall|i: int| 0 <= i < items.len() ==> items[i].wf(),
    ensures
        chain_wf_at(items_bytes(items) + terminator_bytes(), 0),
    decreases items.len(),
{
    let s = items_bytes(items) + terminator_bytes();
    if items.len() == 0 {
        assert(s =~= terminator_bytes());
        assert(total_at(s, 0) == 4);
    } else {
        let n = items[0];
        let rest = items.drop_first();
        let tail = items_bytes(rest) + terminator_bytes();
        assert(s =~= n.node_bytes() + tail);
        lemma_le16_roundtrip(4 + n.payload.len() as int);
        assert(total_at(s, 0) == 4 + n.payload.len());
        assert(!is_terminal_at(s, 0));
        lemma_items_chain_wf(rest);
        lemma_chain_wf_shift(n.node_bytes(), tail, 0);
        assert(chain_wf_at(s, n.node_bytes().len() as int));
    }
}

/// Shifting the base of a laid-out list shifts every node's offset alike.
proof fn lemma_item_offsets_shift(items: Seq<NodeView>, base: int, d: int)
    ensures
        item_offsets(items, base).map_values(|x: int| x + d) == item_offsets(items, base + d),
    decreases items.len(),
{
    if items.len() == 0 {
        assert(item_offsets(items, base).map_values(|x: int| x + d) =~= item_offsets(
            items,
            base + d,
        ));
    } else {
        let rest = items.drop_first();
        let step = items[0].node_bytes().len() as int;
        lemma_item_offsets_shift(rest, base + step, d);
        assert(item_offsets(items, base).map_values(|x: int| x + d) =~= seq![base + d]
            + item_offsets(rest, base + step).map_values(|x: int| x + d));
        assert(item_offsets(items, base + d) =~= seq![base + d] + item_offsets(
            rest,
            base + d + step,
        ));
    }
}

/// Walking a chain built from a list of well-formed nodes visits exactly
/// those nodes, in the order given, each at the offset where it was laid
/// out, and then the terminator: insertion order is preserved.
pub proof fn lemma_items_walk(items: Seq<NodeView>)
    requires
        forall|i: int| 0 <= i < items.len() ==> items[i].wf(),
    ensures
        walk_result(items_bytes(items) + terminator_bytes(), 0) == Ok::<_, DevicePathError>(
            item_offsets(items, 0) + seq![items_bytes(items).len() as int],
        ),
    decreases items.len(),
{
    let s = items_bytes(items) + terminator_bytes();
    if items.len() == 0 {
        assert(s =~= terminator_bytes());
        assert(total_at(s, 0) == 4);
        assert(walk_result(s, 0) == Ok::<_, DevicePathError>(seq![0int]));
        assert(item_offsets(items, 0) + seq![items_bytes(items).len() as int] =~= seq![0int]);
    } else {
        let n = items[0];
        let rest = items.drop_first();
        let tail = items_bytes(rest) + terminator_bytes();
        let step = n.node_bytes().len() as int;
        assert(s =~= n.node_bytes() + tail);
        lemma_le16_roundtrip(4 + n.payload.len() as int);
        assert(total_at(s, 0) == 4 + n.payload.len());
        assert(step == 4 + n.payload.len());
        assert(!is_terminal_at(s, 0));
        lemma_items_chain_wf(items);
        lemma_items_walk(rest);
        lemma_walk_result_shift(n.node_bytes(), tail, 0);
        let t = (item_offsets(rest, 0) + seq![items_bytes(rest).len() as int]).map_values(
            |x: int| x + step,
        );
        assert(walk_result(s, step) == Ok::<_, DevicePathError>(t));
        assert(walk_result(s, 0) == Ok::<_, DevicePathError>(seq![0int] + t));
        lemma_item_offsets_shift(rest, 0, step);
        assert(t =~= item_offsets(rest, 0).map_values(|x: int| x + step) + seq![items_bytes(
            rest,
        ).len() + step]);
        assert(items_bytes(items).len() == step + items_bytes(rest).len());
        assert(seq![0int] + t =~= item_offsets(items, 0) + seq![items_bytes(items).len() as int]);
    }
}

/// The byte length of a chain built from a list of well-formed nodes is
/// the sum of the nodes' sizes plus the 4-byte terminator.
pub proof fn lemma_length_additivity(items: Seq<NodeView>)
    requires
        forall|i: int| 0 <= i < items.len() ==> items[i].wf(),
    ensures
        chain_len_result(items_bytes(items) + terminator_bytes(), 0) == Ok::<_, DevicePathError>(
            sum_node_sizes(items) + 4,
        ),
{
    let s = items_bytes(items) + terminator_bytes();
    lemma_items_chain_wf(items);
    lemma_chain_len_of_chain(s, 0);
    lemma_items_bytes_len(items);
}

/// An exclusively owned buffer holding one complete, well-formed chain.
///
/// The buffer is allocated when the chain is built and released exactly
/// once, when the box goes out of scope; moving the box transfers
/// ownership and leaves no second handle behind.  Its content is never
/// mutated after building: it is only read, or fed whole into `append`.
pub struct DevicePathBox {
    buf: Vec<u8>,
}

impl View for DevicePathBox {
    type V = Seq<u8>;

    closed spec fn view(&self) -> Seq<u8> {
        self.buf@
    }
}

impl DevicePathBox {
    #[verifier::type_invariant]
    closed spec fn type_inv(self) -> bool {
        chain_wf_at(self.buf@, 0)
    }

    /// The chain's bytes, for borrowed traversal.
    pub fn as_bytes(&self) -> (r: &Vec<u8>)
        ensures
            r@ == self@,
    {
        &self.buf
    }

    /// The chain's first node's header.
    pub fn first(&self) -> (h: DevicePath)
        ensures
            h.device_type == self@[0],
            h.sub_type == self@[1],
            h.length == total_at(self@, 0),
    {
        proof {
            use_type_invariant(self);
        }
        match read_header(&self.buf, 0) {
            Ok(h) => h,
            Err(_) => {
                proof {
                    assert(false);
                }
                DevicePath { device_type: 0, sub_type: 0, length: 4 }
            },
        }
    }

    /// The bytes the whole chain occupies: by well-formedness, exactly the
    /// buffer's length.
    pub fn byte_length(&self) -> (r: usize)
        ensures
            r == self@.len(),
            chain_len_result(self@, 0) == Ok::<_, DevicePathError>(r as int),
    {
        proof {
            use_type_invariant(self);
            lemma_chain_len_of_chain(self@, 0);
        }
        self.buf.len()
    }

    /// Walks the owned chain from its first node.  On a well-formed chain
    /// a walk cannot fail; it visits every node in order, the terminator
    /// last.
    pub fn walk(&self) -> (r: Vec<usize>)
        ensures
            walk_result(self@, 0) == Ok::<_, DevicePathError>(
                r@.map_values(|x: usize| x as int),
            ),
            r@.len() >= 1,
            is_end_entire_at(self@, r@.last() as int),
    {
        proof {
            use_type_invariant(self);
            lemma_walk_of_chain(self@, 0);
        }
        match crate::navigate::walk(&self.buf, 0) {
            Ok(v) => {
                proof {
                    let m = v@.map_values(|x: usize| x as int);
                    assert(m.last() == v@.last() as int);
                }
                v
            },
            Err(_) => {
                proof {
                    assert(false);
                }
                Vec::new()
            },
        }
    }
}

/// Appends the terminator record to `buf`.
fn stamp_terminator(buf: &mut Vec<u8>)
    ensures
        final(buf)@ == old(buf)@ + terminator_bytes(),
{
    buf.push(0x7f);
    buf.push(0xff);
    buf.push(4);
    buf.push(0);
    proof {
        assert(buf@ =~= old(buf)@ + terminator_bytes());
    }
}

/// Builds a chain from a list of nodes: encodes them back to back in the
/// order given, then closes the chain with the terminator.  Insertion
/// order is meaningful — it is the order in which the chain's consumer
/// resolves the path — and is preserved exactly.
pub fn build_many(items: &Vec<DevicePathPayload>) -> (r: DevicePathBox)
    ensures
        r@ == items_bytes(views_of(items@)) + terminator_bytes(),
        chain_wf_at(r@, 0),
{
    let ghost views = views_of(items@);
    let mut buf: Vec<u8> = Vec::new();
    let mut i: usize = 0;
    while i < items.len()
        invariant
            i <= items@.len(),
            views == views_of(items@),
            buf@ == items_bytes(views.take(i as int)),
            forall|j: int| 0 <= j < i ==> views[j].wf(),
        decreases items@.len() - i,
    {
        let it = &items[i];
        proof {
            use_type_invariant(it);
            assert(views[i as int] == it@);
        }
        stamp(&mut buf, it.device_type, it.sub_type, &it.payload);
        proof {
            assert(views.take(i + 1) =~= views.take(i as int).push(views[i as int]));
            lemma_items_bytes_push(views.take(i as int), views[i as int]);
            assert(it@.node_bytes() == node_bytes(it.device_type, it.sub_type, it.payload@));
        }
        i = i + 1;
    }
    proof {
        assert(views.take(views.len() as int) =~= views);
    }
    stamp_terminator(&mut buf);
    proof {
        assert(forall|j: int| 0 <= j < views.len() ==> views[j].wf());
        lemma_items_chain_wf(views);
    }
    DevicePathBox { buf }
}

/// Builds a chain of one node from a tag and raw payload bytes, closed by
/// the terminator.  Fails like `DevicePathPayload::create`: a payload over
/// the 16-bit budget is `PayloadTooLarge`, and an `End` tag other than the
/// instance separator is `WrongShapeForTag`.
pub fn build_single(device_type: DeviceType, sub_type: u8, payload: &Vec<u8>) -> (r: Result<
    DevicePathBox,
    DevicePathError,
>)
    ensures
        device_type == DeviceType::End && sub_type != 0x01 ==> r == Err::<DevicePathBox, _>(
            DevicePathError::WrongShapeForTag,
        ),
        !(device_type == DeviceType::End && sub_type != 0x01) && payload@.len() > MAX_PAYLOAD_LEN
            ==> r == Err::<DevicePathBox, _>(DevicePathError::PayloadTooLarge),
        !(device_type == DeviceType::End && sub_type != 0x01) && payload@.len() <= MAX_PAYLOAD_LEN
            ==> (r matches Ok(b) && b@ == node_bytes(device_type.as_byte(), sub_type, payload@)
            + terminator_bytes() && chain_wf_at(b@, 0)),
{
    proof {
        assert(device_type.as_byte() == 0x7f <==> device_type == DeviceType::End);
    }
    if device_type.to_u8() == 0x7f && sub_type != 0x01 {
        return Err(DevicePathError::WrongShapeForTag);
    }
    if payload.len() > MAX_PAYLOAD_LEN {
        return Err(DevicePathError::PayloadTooLarge);
    }
    let mut buf: Vec<u8> = Vec::new();
    stamp(&mut buf, device_type.to_u8(), sub_type, payload);
    stamp_terminator(&mut buf);
    proof {
        let v = NodeView {
            device_type: device_type.as_byte(),
            sub_type: sub_type,
            payload: payload@,
        };
        lemma_items_bytes_single(v);
        assert(forall|i: int| 0 <= i < seq![v].len() ==> seq![v][i].wf());
        lemma_items_chain_wf(seq![v]);
        assert(buf@ =~= items_bytes(seq![v]) + terminator_bytes());
    }
    Ok(DevicePathBox { buf })
}

impl DevicePath {
    /// Builds a chain of one node, closed by the terminator.
    pub fn new1(x: DevicePathPayload) -> (r: DevicePathBox)
        ensures
            r@ == x@.node_bytes() + terminator_bytes(),
            chain_wf_at(r@, 0),
    {
        let ghost xv = x@;
        let items = vec![x];
        let r = build_many(&items);
        proof {
            assert(views_of(items@) =~= seq![xv]);
            lemma_items_bytes_single(xv);
        }
        r
    }

    /// Builds a chain of two nodes, in the order given, closed by the
    /// terminator.
    pub fn new2(x: DevicePathPayload, y: DevicePathPayload) -> (r: DevicePathBox)
        ensures
            r@ == x@.node_bytes() + y@.node_bytes() + terminator_bytes(),
            chain_wf_at(r@, 0),
    {
        let ghost xv = x@;
        let ghost yv = y@;
        let items = vec![x, y];
        let r = build_many(&items);
        proof {
            assert(views_of(items@) =~= seq![xv, yv]);
            assert(seq![xv, yv].drop_first() =~= seq![yv]);
            lemma_items_bytes_single(yv);
            assert(items_bytes(seq![xv, yv]) =~= xv.node_bytes() + yv.node_bytes());
            assert(r@ =~= xv.node_bytes() + yv.node_bytes() + terminator_bytes());
        }
        r
    }

    /// Concatenates two chains into a new one: all of `a`'s nodes except
    /// its terminator, then all of `b` including its terminator, which
    /// closes the result.  Both inputs are read only; the result owns a
    /// fresh buffer.
    pub fn append(a: &DevicePathBox, b: &DevicePathBox) -> (r: DevicePathBox)
        ensures
            r@ == a@.take(a@.len() - 4) + b@,
            r@.len() == a@.len() + b@.len() - 4,
            chain_wf_at(r@, 0),
    {
        proof {
            use_type_invariant(a);
            use_type_invariant(b);
            lemma_append_chain(a@, b@, 0);
        }
        let abytes = a.as_bytes();
        let bbytes = b.as_bytes();
        let stop = abytes.len() - 4;
        let mut buf: Vec<u8> = Vec::new();
        let mut i: usize = 0;
        while i < stop
            invariant
                i <= stop,
                stop <= abytes@.len(),
                buf@ == abytes@.subrange(0, i as int),
            decreases stop - i,
        {
            buf.push(abytes[i]);
            proof {
                assert(abytes@.subrange(0, i + 1) == abytes@.subrange(0, i as int).push(
                    abytes@[i as int],
                ));
            }
            i = i + 1;
        }
        let mut j: usize = 0;
        while j < bbytes.len()
            invariant
                j <= bbytes@.len(),
                stop <= abytes@.len(),
                buf@ == abytes@.subrange(0, stop as int) + bbytes@.subrange(0, j as int),
            decreases bbytes@.len() - j,
        {
            buf.push(bbytes[j]);
            proof {
                assert(bbytes@.subrange(0, j + 1) == bbytes@.subrange(0, j as int).push(
                    bbytes@[j as int],
                ));
            }
            j = j + 1;
        }
        proof {
            assert(bbytes@.subrange(0, bbytes@.len() as int) == bbytes@);
            assert(buf@ =~= a@.take(a@.len() - 4) + b@);
        }
        DevicePathBox { buf }
    }
}

/// Concatenating chains splices their traversals: walking the result
/// visits `a`'s nodes, its terminator excepted, at their old offsets, then
/// every node of `b` — terminator included — moved behind `a`'s nodes.
pub proof fn lemma_append_chain(a: Seq<u8>, b: Seq<u8>, off: int)
    requires
        chain_wf_at(a, off),
        chain_wf_at(b, 0),
    ensures
        ({
            let c = a.take(a.len() - 4) + b;
            &&& chain_wf_at(c, off)
            &&& walk_result(a, off) matches Ok(va) && walk_result(b, 0) matches Ok(vb)
                && walk_result(c, off) == Ok::<_, DevicePathError>(
                va.drop_last() + vb.map_values(|x: int| x + (a.len() - 4)),
            )
        }),
    decreases a.len() - off,
{
    let c = a.take(a.len() - 4) + b;
    let d = a.len() - 4;
    lemma_walk_of_chain(a, off);
    lemma_walk_of_chain(b, 0);
    if is_terminal_at(a, off) {
        // `off` is `a`'s terminator: in the spliced buffer, `b`'s chain
        // begins right here.
        assert(off == d);
        assert(c.len() == d + b.len());
        lemma_chain_wf_shift(a.take(d), b, 0);
        lemma_walk_result_shift(a.take(d), b, 0);
        assert(walk_result(a, off) == Ok::<_, DevicePathError>(seq![off]));
        match walk_result(b, 0) {
            Ok(vb) => {
                assert(walk_result(c, off) == Ok::<_, DevicePathError>(
                    vb.map_values(|x: int| x + d),
                ));
                assert(seq![off].drop_last() =~= Seq::<int>::empty());
                assert(seq![off].drop_last() + vb.map_values(|x: int| x + d) =~= vb.map_values(
                    |x: int| x + d,
                ));
            },
            Err(_) => {
                assert(false);
            },
        }
    } else {
        let step = total_at(a, off);
        lemma_append_chain(a, b, off + step);
        // The node at `off` lies wholly before `a`'s terminator, so the
        // spliced buffer holds its bytes unchanged.
        assert(chain_wf_at(a, off + step));
        assert(off + step + 4 <= a.len());
        assert(c[off] == a[off]);
        assert(c[off + 1] == a[off + 1]);
        assert(c[off + 2] == a[off + 2]);
        assert(c[off + 3] == a[off + 3]);
        assert(total_at(c, off) == step);
        assert(header_ok_at(c, off));
        assert(!is_terminal_at(c, off));
        match walk_result(a, off + step) {
            Ok(va2) => {
                match walk_result(b, 0) {
                    Ok(vb) => {
                        lemma_walk_of_chain(a, off + step);
                        assert(walk_result(a, off) == Ok::<_, DevicePathError>(seq![off] + va2));
                        assert(walk_result(c, off) == Ok::<_, DevicePathError>(
                            seq![off] + (va2.drop_last() + vb.map_values(|x: int| x + d)),
                        ));
                        assert((seq![off] + va2).drop_last() =~= seq![off] + va2.drop_last());
                        assert(seq![off] + (va2.drop_last() + vb.map_values(|x: int| x + d)) =~= (
                        seq![off] + va2).drop_last() + vb.map_values(|x: int| x + d));
                    },
                    Err(_) => {
                        assert(false);
                    },
                }
            },
            Err(_) => {
                assert(false);
            },
        }
    }
}

} // verus!
