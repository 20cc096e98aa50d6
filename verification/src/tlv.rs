use vstd::prelude::*;

use vstd::bytes::lemma_auto_spec_u32_to_from_le_bytes;
use vstd::bytes::spec_u32_from_le_bytes;
use vstd::bytes::spec_u32_to_le_bytes;
use vstd::bytes::u32_from_le_bytes;
use vstd::bytes::u32_to_le_bytes;
use vstd::slice::slice_subrange;

verus! {

/// The external interface's fixed 8-byte tag for the hook's execute
/// operation: the little-endian truncated hash of the canonical operation
/// name. The same value keys the resolver configuration's TLV entry.
pub open spec fn execute_tag() -> Seq<u8> {
    seq![105u8, 37u8, 101u8, 197u8, 75u8, 251u8, 102u8, 26u8]
}

/// The execute tag as a fixed-size byte array.
pub fn execute_ix_tag_le() -> (r: [u8; 8])
    ensures
        r@ == execute_tag(),
{
    let t: [u8; 8] = [105u8, 37u8, 101u8, 197u8, 75u8, 251u8, 102u8, 26u8];
    proof {
        assert(t@ =~= execute_tag());
    }
    t
}

/// One entry of the resolver configuration: a reference to one additional
/// account the transfer engine must attach when invoking the hook.
#[derive(Debug)]
pub struct ExtraAccountMeta {
    /// How `address_config` is to be read; 0 means a fixed account address.
    pub discriminator: u8,
    /// The 32-byte address (or derivation configuration) of the account.
    pub address_config: Vec<u8>,
    /// Whether the account must sign.
    pub is_signer: bool,
    /// Whether the account must be writable.
    pub is_writable: bool,
}

/// The mathematical value of an `ExtraAccountMeta`.
#[verifier::ext_equal]
pub struct MetaView {
    pub discriminator: u8,
    pub address_config: Seq<u8>,
    pub is_signer: bool,
    pub is_writable: bool,
}

impl View for ExtraAccountMeta {
    type V = MetaView;

    open spec fn view(&self) -> MetaView {
        MetaView {
            discriminator: self.discriminator,
            address_config: self.address_config@,
            is_signer: self.is_signer,
            is_writable: self.is_writable,
        }
    }
}

impl DeepView for ExtraAccountMeta {
    type V = MetaView;

    open spec fn deep_view(&self) -> MetaView {
        self@
    }
}

/// An entry is well formed when its address configuration holds exactly 32
/// bytes.
pub open spec fn meta_wf(m: MetaView) -> bool {
    m.address_config.len() == 32
}

/// The largest entry count whose value length still fits the encoding's
/// 32-bit length field.
pub const MAX_META_COUNT: usize = 122713351;

pub open spec fn bool_byte(b: bool) -> u8 {
    if b {
        1u8
    } else {
        0u8
    }
}

/// The 35-byte encoding of one entry.
pub open spec fn spec_encode_entry(m: MetaView) -> Seq<u8> {
    seq![m.discriminator] + m.address_config + seq![bool_byte(m.is_signer), bool_byte(
        m.is_writable,
    )]
}

/// The concatenated encodings of a list of entries, in order.
pub open spec fn spec_encode_entries(ms: Seq<MetaView>) -> Seq<u8>
    decreases ms.len(),
{
    if ms.len() == 0 {
        Seq::empty()
    } else {
        spec_encode_entry(ms[0]) + spec_encode_entries(ms.drop_first())
    }
}

/// The full on-disk form of the resolver configuration: the 8-byte execute
/// tag, a little-endian 32-bit length of the value that follows, then that
/// value: a little-endian 32-bit entry count followed by the entries.
pub open spec fn spec_encode_meta_list(ms: Seq<MetaView>) -> Seq<u8> {
    execute_tag() + spec_u32_to_le_bytes((4 + 35 * ms.len()) as u32) + spec_u32_to_le_bytes(
        ms.len() as u32,
    ) + spec_encode_entries(ms)
}

/// The byte size the encoded configuration takes for a given entry count.
pub open spec fn spec_meta_list_size(n: int) -> int {
    16 + 35 * n
}

/// Compute the byte size required to hold `num_items` entries.
pub fn meta_list_size(num_items: usize) -> (r: u64)
    requires
        num_items <= MAX_META_COUNT,
    ensures
        r == spec_meta_list_size(num_items as int),
{
    16u64 + 35u64 * (num_items as u64)
}

pub proof fn lemma_encode_entries_len(ms: Seq<MetaView>)
    requires
        forall|i: int| 0 <= i < ms.len() ==> meta_wf(#[trigger] ms[i]),
    ensures
        spec_encode_entries(ms).len() == 35 * ms.len(),
    decreases ms.len(),
{
    if ms.len() > 0 {
        lemma_encode_entries_len(ms.drop_first());
    }
}

pub proof fn lemma_encode_entries_push(ms: Seq<MetaView>, v: MetaView)
    ensures
        spec_encode_entries(ms.push(v)) == spec_encode_entries(ms) + spec_encode_entry(v),
    decreases ms.len(),
{
    if ms.len() == 0 {
        assert(ms.push(v)[0] == v);
        assert(ms.push(v).drop_first() =~= Seq::<MetaView>::empty());
        assert(spec_encode_entries(Seq::<MetaView>::empty()) == Seq::<u8>::empty());
        assert(spec_encode_entries(ms.push(v)) == spec_encode_entry(v) + Seq::<u8>::empty());
        assert(spec_encode_entries(ms.push(v)) =~= spec_encode_entries(ms) + spec_encode_entry(v));
    } else {
        assert(ms.push(v)[0] == ms[0]);
        assert(ms.push(v).drop_first() =~= ms.drop_first().push(v));
        lemma_encode_entries_push(ms.drop_first(), v);
        assert(spec_encode_entries(ms.push(v)) == spec_encode_entry(ms[0]) + (spec_encode_entries(
            ms.drop_first(),
        ) + spec_encode_entry(v)));
        assert(spec_encode_entries(ms.push(v)) =~= spec_encode_entries(ms) + spec_encode_entry(v));
    }
}

/// Where each entry's encoding sits inside the concatenation.
pub proof fn lemma_encode_entries_index(ms: Seq<MetaView>, i: int)
    requires
        0 <= i < ms.len(),
        forall|j: int| 0 <= j < ms.len() ==> meta_wf(#[trigger] ms[j]),
    ensures
        spec_encode_entries(ms).subrange(35 * i, 35 * i + 35) == spec_encode_entry(ms[i]),
    decreases i,
{
    lemma_encode_entries_len(ms);
    lemma_encode_entries_len(ms.drop_first());
    if i == 0 {
        assert(spec_encode_entries(ms).subrange(0, 35) =~= spec_encode_entry(ms[0]));
    } else {
        lemma_encode_entries_index(ms.drop_first(), i - 1);
        assert(spec_encode_entries(ms).subrange(35 * i, 35 * i + 35) =~= spec_encode_entries(
            ms.drop_first(),
        ).subrange(35 * (i - 1), 35 * (i - 1) + 35));
    }
}

fn encode_entry_into(r: &mut Vec<u8>, m: &ExtraAccountMeta)
    requires
        meta_wf(m@),
    ensures
        final(r)@ == old(r)@ + spec_encode_entry(m@),
{
    r.push(m.discriminator);
    r.extend_from_slice(m.address_config.as_slice());
    r.push(if m.is_signer { 1u8 } else { 0u8 });
    r.push(if m.is_writable { 1u8 } else { 0u8 });
    proof {
        assert(r@ =~= old(r)@ + spec_encode_entry(m@));
    }
}

/// Serialize an entry list into the resolver configuration's on-disk form.
pub fn encode_meta_list(metas: &Vec<ExtraAccountMeta>) -> (r: Vec<u8>)
    requires
        metas@.len() <= MAX_META_COUNT,
        forall|i: int| 0 <= i < metas@.len() ==> meta_wf(#[trigger] metas.deep_view()[i]),
    ensures
        r@ == spec_encode_meta_list(metas.deep_view()),
        r@.len() == spec_meta_list_size(metas@.len() as int),
{
    let ghost ms = metas.deep_view();
    let n = metas.len();
    let mut r: Vec<u8> = Vec::new();
    r.push(105u8);
    r.push(37u8);
    r.push(101u8);
    r.push(197u8);
    r.push(75u8);
    r.push(251u8);
    r.push(102u8);
    r.push(26u8);
    let len_field: u32 = 4 + 35 * (n as u32);
    let mut lf = u32_to_le_bytes(len_field);
    r.append(&mut lf);
    let mut cf = u32_to_le_bytes(n as u32);
    r.append(&mut cf);
    let ghost header = r@;
    proof {
        assert(header =~= execute_tag() + spec_u32_to_le_bytes((4 + 35 * ms.len()) as u32)
            + spec_u32_to_le_bytes(ms.len() as u32));
    }
    let mut i: usize = 0;
    while i < n
        invariant
            i <= n,
            n == metas@.len(),
            ms == metas.deep_view(),
            forall|j: int| 0 <= j < ms.len() ==> meta_wf(#[trigger] ms[j]),
            r@ == header + spec_encode_entries(ms.take(i as int)),
        decreases n - i,
    {
        proof {
            assert(ms[i as int] == metas@[i as int]@);
        }
        encode_entry_into(&mut r, &metas[i]);
        proof {
            lemma_encode_entries_push(ms.take(i as int), ms[i as int]);
            assert(ms.take(i as int).push(ms[i as int]) =~= ms.take(i + 1 as int));
        }
        i = i + 1;
    }
    proof {
        assert(ms.take(n as int) =~= ms);
        lemma_encode_entries_len(ms);
        lemma_auto_spec_u32_to_from_le_bytes();
    }
    r
}

/// The mathematical value of a 35-byte entry encoding.
pub open spec fn spec_decode_entry(b: Seq<u8>) -> MetaView
    recommends
        b.len() == 35,
{
    MetaView {
        discriminator: b[0],
        address_config: b.subrange(1, 33),
        is_signer: b[33] != 0,
        is_writable: b[34] != 0,
    }
}

/// The entry list a configuration buffer holds, or `None` when the buffer is
/// not an exact, well-formed encoding.
pub open spec fn spec_decode_meta_list(data: Seq<u8>) -> Option<Seq<MetaView>> {
    if data.len() < 16 {
        None
    } else if data.subrange(0, 8) != execute_tag() {
        None
    } else {
        let len_field = spec_u32_from_le_bytes(data.subrange(8, 12)) as int;
        let n = spec_u32_from_le_bytes(data.subrange(12, 16)) as int;
        if len_field != 4 + 35 * n {
            None
        } else if data.len() != 16 + 35 * n {
            None
        } else {
            Some(
                Seq::new(
                    n as nat,
                    |i: int| spec_decode_entry(data.subrange(16 + 35 * i, 16 + 35 * i + 35)),
                ),
            )
        }
    }
}

/// Deserialize a resolver configuration buffer back into its entry list.
pub fn decode_meta_list(data: &[u8]) -> (r: Option<Vec<ExtraAccountMeta>>)
    ensures
        (r matches Some(v) ==> spec_decode_meta_list(data@) == Some(v.deep_view())),
        r is None ==> spec_decode_meta_list(data@) is None,
{
    if data.len() < 16 {
        return None;
    }
    let tag = execute_ix_tag_le();
    let mut i: usize = 0;
    while i < 8
        invariant
            i <= 8,
            data@.len() >= 16,
            tag@ == execute_tag(),
            forall|j: int| 0 <= j < i ==> data@[j] == tag@[j],
        decreases 8 - i,
    {
        if data[i] != tag[i] {
            proof {
                assert(data@.subrange(0, 8)[i as int] != execute_tag()[i as int]);
            }
            return None;
        }
        i = i + 1;
    }
    proof {
        assert(data@.subrange(0, 8) =~= execute_tag());
    }
    let len_field = u32_from_le_bytes(slice_subrange(data, 8, 12));
    let n32 = u32_from_le_bytes(slice_subrange(data, 12, 16));
    if (len_field as u64) != 4u64 + 35u64 * (n32 as u64) {
        return None;
    }
    let n = n32 as usize;
    if (data.len() as u64) != 16u64 + 35u64 * (n as u64) {
        return None;
    }
    let ghost entries = spec_decode_meta_list(data@)->Some_0;
    let mut out: Vec<ExtraAccountMeta> = Vec::new();
    let mut i: usize = 0;
    while i < n
        invariant
            i <= n,
            data@.len() == 16 + 35 * n,
            data@.len() <= usize::MAX,
            out@.len() == i,
            entries == spec_decode_meta_list(data@)->Some_0,
            spec_decode_meta_list(data@) is Some,
            entries.len() == n,
            forall|j: int| 0 <= j < i ==> #[trigger] out@[j]@ == entries[j],
        decreases n - i,
    {
        let off = 16 + 35 * i;
        proof {
            assert(off + 35 <= data@.len());
        }
        let mut addr: Vec<u8> = Vec::new();
        addr.extend_from_slice(slice_subrange(data, off + 1, off + 33));
        let m = ExtraAccountMeta {
            discriminator: data[off],
            address_config: addr,
            is_signer: data[off + 33] != 0,
            is_writable: data[off + 34] != 0,
        };
        proof {
            let b = data@.subrange(off as int, off as int + 35);
            assert(b[0] == data@[off as int]);
            assert(b[33] == data@[off as int + 33]);
            assert(b[34] == data@[off as int + 34]);
            assert(b.subrange(1, 33) =~= data@.subrange(off + 1 as int, off + 33 as int));
            assert(m@ =~= spec_decode_entry(b));
            assert(entries[i as int] == spec_decode_entry(
                data@.subrange(16 + 35 * (i as int), 16 + 35 * (i as int) + 35),
            ));
        }
        out.push(m);
        i = i + 1;
    }
    proof {
        assert(out.deep_view() =~= entries);
    }
    Some(out)
}

/// Decoding inverts encoding: a well-formed entry list survives the round
/// trip through the on-disk form unchanged.
pub proof fn lemma_entry_round_trip(m: MetaView)
    requires
        meta_wf(m),
    ensures
        spec_decode_entry(spec_encode_entry(m)) == m,
{
    let b = spec_encode_entry(m);
    assert(b.subrange(1, 33) =~= m.address_config);
    assert(spec_decode_entry(b) =~= m);
}

/// Decoding inverts encoding for whole configurations: every well-formed
/// entry list comes back unchanged from its encoded form.
pub proof fn lemma_meta_list_round_trip(ms: Seq<MetaView>)
    requires
        ms.len() <= MAX_META_COUNT,
        forall|i: int| 0 <= i < ms.len() ==> meta_wf(#[trigger] ms[i]),
    ensures
        spec_decode_meta_list(spec_encode_meta_list(ms)) == Some(ms),
{
    let data = spec_encode_meta_list(ms);
    let n = ms.len() as int;
    lemma_auto_spec_u32_to_from_le_bytes();
    lemma_encode_entries_len(ms);
    assert(data.len() == 16 + 35 * n);
    assert(data.subrange(0, 8) =~= execute_tag());
    assert(data.subrange(8, 12) =~= spec_u32_to_le_bytes((4 + 35 * ms.len()) as u32));
    assert(data.subrange(12, 16) =~= spec_u32_to_le_bytes(ms.len() as u32));
    let decoded = spec_decode_meta_list(data)->Some_0;
    assert forall|i: int| 0 <= i < n implies #[trigger] decoded[i] == ms[i] by {
        lemma_encode_entries_index(ms, i);
        assert(data.subrange(16 + 35 * i, 16 + 35 * i + 35) =~= spec_encode_entries(ms).subrange(
            35 * i,
            35 * i + 35,
        ));
        lemma_entry_round_trip(ms[i]);
    }
    assert(decoded =~= ms);
}

} // verus!
