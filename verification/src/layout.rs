//! Pipeline layouts: how bind groups map onto root parameters.

use vstd::prelude::*;
use arrayvec::ArrayVec;
use crate::bounded::{infos_get, infos_len, infos_new, infos_of, infos_push};
use crate::resource::BindGroup;
use crate::{RawHandle, MAX_BIND_GROUPS};

verus! {

/// Largest size of a root signature, in 32-bit words. A descriptor table
/// costs one word, a root descriptor two.
pub const MAX_ROOT_SIGNATURE_SIZE: u32 = 64;

/// How a buffer is bound.
#[derive(Clone, Copy, Debug, PartialEq, Eq, Structural)]
pub enum BufferBindingType {
    Uniform,
    Storage { read_only: bool },
}

/// What an entry of a bind group layout binds.
#[derive(Clone, Copy, Debug, PartialEq, Eq, Structural)]
pub enum BindingType {
    Buffer { ty: BufferBindingType, has_dynamic_offset: bool },
    Sampler,
    Texture,
    StorageTexture,
}

/// One binding of a bind group layout.
#[derive(Clone, Copy, Debug, PartialEq, Eq)]
pub struct BindGroupLayoutEntry {
    /// Binding index, unique within its layout.
    pub binding: u32,
    /// Shader stages that see the binding, as a bit set.
    pub visibility: u32,
    pub ty: BindingType,
    /// Number of array elements, for an entry that is an array.
    pub count: Option<u32>,
}

/// Where a kind of binding stands among the kinds.
fn rank_of(ty: BindingType) -> (rank: u8)
    ensures
        rank == type_rank(ty),
{
    match ty {
        BindingType::Buffer { ty, has_dynamic_offset } => {
            let base: u8 = match ty {
                BufferBindingType::Uniform => 0,
                BufferBindingType::Storage { read_only } => if read_only {
                    2
                } else {
                    4
                },
            };
            if has_dynamic_offset {
                base + 1
            } else {
                base
            }
        },
        BindingType::Sampler => 6,
        BindingType::Texture => 7,
        BindingType::StorageTexture => 8,
    }
}

impl BindGroupLayoutEntry {
    /// Whether the entry takes a place in the table of views.
    pub open spec fn in_view_table(&self) -> bool {
        match self.ty {
            BindingType::Buffer { has_dynamic_offset, .. } => !has_dynamic_offset,
            BindingType::Sampler => false,
            BindingType::Texture => true,
            BindingType::StorageTexture => true,
        }
    }

    /// Whether the entry takes a place in the table of samplers.
    pub open spec fn in_sampler_table(&self) -> bool {
        self.ty is Sampler
    }

    /// The root descriptor of the entry, for a buffer with a dynamic offset.
    pub open spec fn dynamic_kind(&self) -> Option<BufferViewKind> {
        match self.ty {
            BindingType::Buffer { ty, has_dynamic_offset } => if has_dynamic_offset {
                Some(
                    match ty {
                        BufferBindingType::Uniform => BufferViewKind::Constant,
                        BufferBindingType::Storage { read_only } => if read_only {
                            BufferViewKind::ShaderResource
                        } else {
                            BufferViewKind::UnorderedAccess
                        },
                    },
                )
            } else {
                None
            },
            _ => None,
        }
    }

    /// Whether two entries are the same in every field.
    pub fn same_as(&self, other: &BindGroupLayoutEntry) -> (b: bool)
        ensures
            b == (*self == *other),
    {
        let same_count = match (self.count, other.count) {
            (Some(a), Some(b)) => a == b,
            (None, None) => true,
            _ => false,
        };
        self.binding == other.binding && self.visibility == other.visibility && self.ty == other.ty
            && same_count
    }

    /// Whether the entry stands before `other` in canonical order, or is
    /// the same.
    pub fn precedes(&self, other: &BindGroupLayoutEntry) -> (b: bool)
        ensures
            b == comes_before(*self, *other),
    {
        if self.binding != other.binding {
            return self.binding < other.binding;
        }
        if self.visibility != other.visibility {
            return self.visibility < other.visibility;
        }
        let mine = rank_of(self.ty);
        let theirs = rank_of(other.ty);
        if mine != theirs {
            return mine < theirs;
        }
        match (self.count, other.count) {
            (None, _) => true,
            (Some(_), None) => false,
            (Some(a), Some(b)) => a <= b,
        }
    }

    /// Whether the entry takes a place in the table of views.
    pub fn is_in_view_table(&self) -> (b: bool)
        ensures
            b == self.in_view_table(),
    {
        match self.ty {
            BindingType::Buffer { ty: _, has_dynamic_offset } => !has_dynamic_offset,
            BindingType::Sampler => false,
            BindingType::Texture => true,
            BindingType::StorageTexture => true,
        }
    }

    /// Whether the entry takes a place in the table of samplers.
    pub fn is_in_sampler_table(&self) -> (b: bool)
        ensures
            b == self.in_sampler_table(),
    {
        match self.ty {
            BindingType::Sampler => true,
            _ => false,
        }
    }

    /// The root descriptor of the entry, for a buffer with a dynamic offset.
    pub fn root_descriptor_kind(&self) -> (k: Option<BufferViewKind>)
        ensures
            k == self.dynamic_kind(),
    {
        match self.ty {
            BindingType::Buffer { ty, has_dynamic_offset } => {
                if !has_dynamic_offset {
                    return None;
                }
                match ty {
                    BufferBindingType::Uniform => Some(BufferViewKind::Constant),
                    BufferBindingType::Storage { read_only } => {
                        if read_only {
                            Some(BufferViewKind::ShaderResource)
                        } else {
                            Some(BufferViewKind::UnorderedAccess)
                        }
                    },
                }
            },
            _ => None,
        }
    }
}

/// The descriptor tables that a bind group owns among the root parameters.
#[derive(Clone, Copy, Debug, PartialEq, Eq, Structural)]
pub struct TableTypes {
    bits: u8,
}

impl TableTypes {
    /// Table of shader resource, constant buffer and unordered access views.
    pub fn srv_cbv_uav() -> (t: TableTypes)
        ensures
            t.spec_bits() == 0x1,
            t.has_views(),
            !t.has_samplers(),
            t.wf(),
    {
        assert(0x1u8 & 0x1 != 0 && 0x1u8 & 0x2 == 0) by (bit_vector);
        TableTypes { bits: 0x1 }
    }

    /// Table of samplers.
    pub fn samplers() -> (t: TableTypes)
        ensures
            t.spec_bits() == 0x2,
            !t.has_views(),
            t.has_samplers(),
            t.wf(),
    {
        assert(0x2u8 & 0x1 == 0 && 0x2u8 & 0x2 != 0) by (bit_vector);
        TableTypes { bits: 0x2 }
    }

    /// The flag bits.
    pub closed spec fn spec_bits(&self) -> u8 {
        self.bits
    }

    /// Whether the view table is present.
    pub open spec fn has_views(&self) -> bool {
        self.spec_bits() & 0x1 != 0
    }

    /// Whether the sampler table is present.
    pub open spec fn has_samplers(&self) -> bool {
        self.spec_bits() & 0x2 != 0
    }

    /// No unknown bit is set.
    pub open spec fn wf(&self) -> bool {
        self.spec_bits() <= 0x3
    }

    /// Number of tables present.
    pub open spec fn count(&self) -> nat {
        (if self.has_views() { 1nat } else { 0nat }) + (if self.has_samplers() { 1nat } else { 0nat })
    }

    /// A set of tables is known by which tables it holds.
    pub proof fn lemma_same_tables(a: TableTypes, b: TableTypes)
        requires
            a.wf(),
            b.wf(),
            a.has_views() == b.has_views(),
            a.has_samplers() == b.has_samplers(),
        ensures
            a == b,
    {
        let x = a.bits;
        let y = b.bits;
        assert(x <= 0x3 && y <= 0x3 && ((x & 0x1 != 0) == (y & 0x1 != 0)) && ((x & 0x2 != 0) == (y
            & 0x2 != 0)) ==> x == y) by (bit_vector);
    }

    /// The set without tables.
    pub fn empty() -> (t: TableTypes)
        ensures
            t.spec_bits() == 0,
            !t.has_views(),
            !t.has_samplers(),
            t.wf(),
    {
        assert(0u8 & 0x1 == 0 && 0u8 & 0x2 == 0) by (bit_vector);
        TableTypes { bits: 0 }
    }

    /// The flag bits.
    #[verifier::when_used_as_spec(spec_bits)]
    pub fn bits(&self) -> (b: u8)
        ensures
            b == self.spec_bits(),
    {
        self.bits
    }

    /// Whether every table of `other` is present in `self`.
    pub fn contains(&self, other: TableTypes) -> (b: bool)
        ensures
            b == (self.spec_bits() & other.spec_bits() == other.spec_bits()),
            other.spec_bits() == 0x1 ==> b == self.has_views(),
            other.spec_bits() == 0x2 ==> b == self.has_samplers(),
    {
        let a = self.bits;
        let o = other.bits;
        assert(o == 0x1 ==> ((a & o == o) <==> (a & 0x1 != 0))) by (bit_vector);
        assert(o == 0x2 ==> ((a & o == o) <==> (a & 0x2 != 0))) by (bit_vector);
        a & o == o
    }

    /// Adds the tables of `other`.
    pub fn insert(&mut self, other: TableTypes)
        ensures
            final(self).spec_bits() == old(self).spec_bits() | other.spec_bits(),
            final(self).has_views() == (old(self).has_views() || other.has_views()),
            final(self).has_samplers() == (old(self).has_samplers() || other.has_samplers()),
            old(self).wf() && other.wf() ==> final(self).wf(),
    {
        let a = self.bits;
        let o = other.bits;
        assert(((a | o) & 0x1 != 0) <==> (a & 0x1 != 0 || o & 0x1 != 0)) by (bit_vector);
        assert(((a | o) & 0x2 != 0) <==> (a & 0x2 != 0 || o & 0x2 != 0)) by (bit_vector);
        assert(a <= 0x3 && o <= 0x3 ==> (a | o) <= 0x3) by (bit_vector);
        self.bits = a | o;
    }
}

/// The root descriptor that binds a buffer with a dynamic offset.
#[derive(Clone, Copy, Debug, PartialEq, Eq, Structural)]
pub enum BufferViewKind {
    Constant,
    ShaderResource,
    UnorderedAccess,
}

/// What one bind group owns among the root parameters.
#[derive(Debug)]
pub struct BindGroupInfo {
    pub base_root_index: u32,
    pub tables: TableTypes,
    pub dynamic_buffers: Vec<BufferViewKind>,
}

/// Where a kind of binding stands among the kinds.
pub open spec fn type_rank(ty: BindingType) -> int {
    match ty {
        BindingType::Buffer { ty, has_dynamic_offset } => (match ty {
            BufferBindingType::Uniform => 0int,
            BufferBindingType::Storage { read_only } => if read_only {
                2int
            } else {
                4int
            },
        }) + (if has_dynamic_offset {
            1int
        } else {
            0int
        }),
        BindingType::Sampler => 6,
        BindingType::Texture => 7,
        BindingType::StorageTexture => 8,
    }
}

/// Where an array size stands: no array first, then by size.
pub open spec fn count_rank(count: Option<u32>) -> int {
    match count {
        None => -1,
        Some(n) => n as int,
    }
}

/// Whether `a` stands before `b` in canonical order, or is `b`. Entries are
/// ordered by binding index; entries of one index by the stages that see
/// them, then by what they bind, then by their array size.
pub open spec fn comes_before(a: BindGroupLayoutEntry, b: BindGroupLayoutEntry) -> bool {
    ||| a.binding < b.binding
    ||| a.binding == b.binding && a.visibility < b.visibility
    ||| a.binding == b.binding && a.visibility == b.visibility && type_rank(a.ty) < type_rank(b.ty)
    ||| a.binding == b.binding && a.visibility == b.visibility && type_rank(a.ty) == type_rank(b.ty)
        && count_rank(a.count) <= count_rank(b.count)
}

/// Whether a sequence is in canonical order.
pub open spec fn sorted_canonically(s: Seq<BindGroupLayoutEntry>) -> bool {
    forall|i: int, j: int| 0 <= i <= j < s.len() ==> comes_before(s[i], s[j])
}

/// Whether the binding indices never go down along a sequence.
pub open spec fn sorted_by_binding(s: Seq<BindGroupLayoutEntry>) -> bool {
    forall|i: int, j: int| 0 <= i <= j < s.len() ==> s[i].binding <= s[j].binding
}

/// A sequence in canonical order with one more entry, at its place.
pub open spec fn insert_canonically(
    s: Seq<BindGroupLayoutEntry>,
    e: BindGroupLayoutEntry,
) -> Seq<BindGroupLayoutEntry>
    decreases s.len(),
{
    if s.len() == 0 {
        seq![e]
    } else if comes_before(s.last(), e) {
        s.push(e)
    } else {
        insert_canonically(s.drop_last(), e).push(s.last())
    }
}

/// The entries in canonical order.
pub open spec fn canonical_order(s: Seq<BindGroupLayoutEntry>) -> Seq<BindGroupLayoutEntry>
    decreases s.len(),
{
    if s.len() == 0 {
        s
    } else {
        insert_canonically(canonical_order(s.drop_last()), s.last())
    }
}

/// The canonical order is a total order on entries: of two entries one
/// stands before the other, and only an entry itself stands on both sides
/// of it.
pub proof fn lemma_comes_before_is_total()
    ensures
        vstd::relations::total_ordering(
            |a: BindGroupLayoutEntry, b: BindGroupLayoutEntry| comes_before(a, b),
        ),
{
    let leq = |a: BindGroupLayoutEntry, b: BindGroupLayoutEntry| comes_before(a, b);
    assert forall|x: BindGroupLayoutEntry, y: BindGroupLayoutEntry| #[trigger]
        leq(x, y) && #[trigger] leq(y, x) implies x == y by {
        assert(type_rank(x.ty) == type_rank(y.ty));
        assert(x.ty == y.ty);
        assert(x.count == y.count);
    }
}

/// Inserting an entry puts it at the one place that keeps the order.
pub proof fn lemma_insert_position(
    s: Seq<BindGroupLayoutEntry>,
    e: BindGroupLayoutEntry,
    p: int,
)
    requires
        0 <= p <= s.len(),
        forall|j: int| p <= j < s.len() ==> !comes_before(#[trigger] s[j], e),
        p > 0 ==> comes_before(s[p - 1], e),
    ensures
        insert_canonically(s, e) == s.insert(p, e),
    decreases s.len(),
{
    if p < s.len() {
        lemma_insert_position(s.drop_last(), e, p);
    }
}

/// Inserting an entry keeps a sequence in canonical order and adds exactly
/// the new entry.
pub proof fn lemma_insert_sorted(s: Seq<BindGroupLayoutEntry>, e: BindGroupLayoutEntry)
    requires
        sorted_canonically(s),
    ensures
        sorted_canonically(insert_canonically(s, e)),
        insert_canonically(s, e).to_multiset() == s.to_multiset().insert(e),
        insert_canonically(s, e).len() == s.len() + 1,
    decreases s.len(),
{
    broadcast use vstd::seq_lib::group_to_multiset_ensures;

    let t = insert_canonically(s, e);
    if s.len() == 0 {
    } else if comes_before(s.last(), e) {
        // every entry of `s` stands before its last, which stands before `e`
        assert forall|i: int, j: int| 0 <= i <= j < t.len() implies comes_before(t[i], t[j]) by {
            if j == s.len() && i < j {
                assert(comes_before(s[i], s[s.len() - 1]));
            }
        }
    } else {
        let head = s.drop_last();
        let r = insert_canonically(head, e);
        lemma_insert_sorted(head, e);
        assert(s =~= head.push(s.last()));
        // every entry of `r` is the new one or one of `head`, so each of
        // them stands before the last entry of `s`
        assert forall|i: int, j: int| 0 <= i <= j < t.len() implies comes_before(t[i], t[j]) by {
            if j == r.len() && i < j {
                assert(r.to_multiset().count(r[i]) > 0);
                if r[i] != e {
                    assert(head.contains(r[i]));
                    let k = choose|k: int| 0 <= k < head.len() && head[k] == r[i];
                    assert(comes_before(s[k], s[s.len() - 1]));
                }
            } else if j < r.len() {
                assert(comes_before(r[i], r[j]));
            }
        }
    }
}

/// The canonical order is in order, by binding index first, and holds
/// exactly the entries that were declared.
pub proof fn lemma_canonical_order(s: Seq<BindGroupLayoutEntry>)
    ensures
        sorted_canonically(canonical_order(s)),
        sorted_by_binding(canonical_order(s)),
        canonical_order(s).to_multiset() == s.to_multiset(),
        canonical_order(s).len() == s.len(),
    decreases s.len(),
{
    broadcast use vstd::seq_lib::group_to_multiset_ensures;

    if s.len() > 0 {
        lemma_canonical_order(s.drop_last());
        lemma_insert_sorted(canonical_order(s.drop_last()), s.last());
        assert(s =~= s.drop_last().push(s.last()));
    }
    let c = canonical_order(s);
    assert forall|i: int, j: int| 0 <= i <= j < c.len() implies c[i].binding <= c[j].binding by {
        assert(comes_before(c[i], c[j]));
    }
}

/// The canonical order does not depend on the order of declaration: two
/// declarations of the same entries have the same canonical order.
pub proof fn lemma_canonical_order_of_permutation(
    a: Seq<BindGroupLayoutEntry>,
    b: Seq<BindGroupLayoutEntry>,
)
    requires
        a.to_multiset() == b.to_multiset(),
    ensures
        canonical_order(a) == canonical_order(b),
{
    let leq = |x: BindGroupLayoutEntry, y: BindGroupLayoutEntry| comes_before(x, y);
    lemma_canonical_order(a);
    lemma_canonical_order(b);
    lemma_comes_before_is_total();
    vstd::seq_lib::lemma_sorted_unique(canonical_order(a), canonical_order(b), leq);
}

/// The bindings of one bind group, in canonical order. Two layouts of the
/// same entries are equal, in whatever order the entries were declared.
#[derive(Clone, Debug, PartialEq, Eq)]
pub struct BindGroupLayout {
    /// Sorted list of entries.
    entries: Vec<BindGroupLayoutEntry>,
}

impl View for BindGroupLayout {
    type V = Seq<BindGroupLayoutEntry>;

    closed spec fn view(&self) -> Seq<BindGroupLayoutEntry> {
        self.entries@
    }
}

impl BindGroupLayout {
    /// A layout of the given entries, brought into canonical order.
    pub fn new(entries: Vec<BindGroupLayoutEntry>) -> (layout: BindGroupLayout)
        ensures
            layout@ == canonical_order(entries@),
    {
        let mut sorted: Vec<BindGroupLayoutEntry> = Vec::new();
        let mut done: usize = 0;
        while done < entries.len()
            invariant
                done <= entries@.len(),
                sorted@ == canonical_order(entries@.take(done as int)),
                sorted@.len() == done,
            decreases entries@.len() - done,
        {
            let e = entries[done];
            let mut p: usize = sorted.len();
            while p > 0 && !sorted[p - 1].precedes(&e)
                invariant
                    p <= sorted@.len(),
                    forall|j: int| p <= j < sorted@.len() ==> !comes_before(#[trigger] sorted@[j], e),
                decreases p,
            {
                p = p - 1;
            }
            proof {
                lemma_insert_position(sorted@, e, p as int);
                assert(entries@.take(done + 1).drop_last() =~= entries@.take(done as int));
            }
            sorted.insert(p, e);
            done = done + 1;
        }
        proof {
            assert(entries@.take(done as int) =~= entries@);
        }
        BindGroupLayout { entries: sorted }
    }

    /// Number of entries.
    pub fn len(&self) -> (n: usize)
        ensures
            n == self@.len(),
    {
        self.entries.len()
    }

    /// Whether two layouts hold the same entries.
    pub fn same_as(&self, other: &BindGroupLayout) -> (b: bool)
        ensures
            b == (self@ == other@),
    {
        if self.entries.len() != other.entries.len() {
            return false;
        }
        let mut k: usize = 0;
        while k < self.entries.len()
            invariant
                k <= self.entries@.len(),
                self.entries@.len() == other.entries@.len(),
                forall|i: int| 0 <= i < k ==> self.entries@[i] == other.entries@[i],
            decreases self.entries@.len() - k,
        {
            if !self.entries[k].same_as(&other.entries[k]) {
                return false;
            }
            k = k + 1;
        }
        assert(self.entries@ =~= other.entries@);
        true
    }

    /// The entry at a position of the canonical order.
    pub fn entry(&self, index: usize) -> (e: Option<BindGroupLayoutEntry>)
        ensures
            e == (if index < self@.len() {
                Some(self@[index as int])
            } else {
                None
            }),
    {
        if index < self.entries.len() {
            Some(self.entries[index])
        } else {
            None
        }
    }
}

/// Why no pipeline layout was built.
#[derive(Clone, Copy, Debug, PartialEq, Eq, Structural)]
pub enum LayoutError {
    /// More bind groups than a pipeline layout can hold.
    TooManyBindGroups,
    /// The root parameters need more room than a root signature has.
    RootSignatureTooLarge,
}

/// Whether a bind group needs a table of views: it has an entry for it.
pub open spec fn needs_view_table(entries: Seq<BindGroupLayoutEntry>) -> bool {
    exists|i: int| 0 <= i < entries.len() && (#[trigger] entries[i]).in_view_table()
}

/// Whether a bind group needs a table of samplers: it has an entry for it.
pub open spec fn needs_sampler_table(entries: Seq<BindGroupLayoutEntry>) -> bool {
    exists|i: int| 0 <= i < entries.len() && (#[trigger] entries[i]).in_sampler_table()
}

/// The root descriptors of a bind group: one for each buffer with a dynamic
/// offset, in the order of the entries.
pub open spec fn dynamic_kinds(entries: Seq<BindGroupLayoutEntry>) -> Seq<BufferViewKind>
    decreases entries.len(),
{
    if entries.len() == 0 {
        Seq::empty()
    } else {
        let head = dynamic_kinds(entries.drop_last());
        match entries.last().dynamic_kind() {
            Some(kind) => head.push(kind),
            None => head,
        }
    }
}

/// Number of descriptor tables of a bind group.
pub open spec fn table_count(entries: Seq<BindGroupLayoutEntry>) -> nat {
    (if needs_view_table(entries) { 1nat } else { 0nat })
        + (if needs_sampler_table(entries) { 1nat } else { 0nat })
}

/// Number of root parameters of a bind group: its tables, then its root
/// descriptors.
pub open spec fn root_parameter_count(entries: Seq<BindGroupLayoutEntry>) -> nat {
    table_count(entries) + dynamic_kinds(entries).len()
}

/// Room that the root parameters of a bind group take in the root
/// signature, in 32-bit words.
pub open spec fn root_signature_cost(entries: Seq<BindGroupLayoutEntry>) -> nat {
    table_count(entries) + 2 * dynamic_kinds(entries).len()
}

/// Index of the first root parameter of bind group `i`: the number of root
/// parameters of the groups before it.
pub open spec fn base_root_index(groups: Seq<Seq<BindGroupLayoutEntry>>, i: int) -> nat
    decreases i,
{
    if i <= 0 {
        0
    } else {
        base_root_index(groups, i - 1) + root_parameter_count(groups[i - 1])
    }
}

/// Room that the first `i` bind groups take in the root signature.
pub open spec fn root_signature_size(groups: Seq<Seq<BindGroupLayoutEntry>>, i: int) -> nat
    decreases i,
{
    if i <= 0 {
        0
    } else {
        root_signature_size(groups, i - 1) + root_signature_cost(groups[i - 1])
    }
}

/// The entries of each layout of a list.
pub open spec fn groups_of(layouts: Seq<BindGroupLayout>) -> Seq<Seq<BindGroupLayoutEntry>> {
    layouts.map_values(|l: BindGroupLayout| l@)
}

/// Whether `info` is the record of bind group `i`.
pub open spec fn describes_group(
    info: BindGroupInfo,
    groups: Seq<Seq<BindGroupLayoutEntry>>,
    i: int,
) -> bool {
    &&& info.base_root_index == base_root_index(groups, i)
    &&& info.tables.wf()
    &&& info.tables.has_views() == needs_view_table(groups[i])
    &&& info.tables.has_samplers() == needs_sampler_table(groups[i])
    &&& info.dynamic_buffers@ == dynamic_kinds(groups[i])
}

/// The room that bind groups take never shrinks as groups are added, and
/// the root parameters never outnumber the words they take.
pub proof fn lemma_root_signature_size_monotone(
    groups: Seq<Seq<BindGroupLayoutEntry>>,
    i: int,
    j: int,
)
    requires
        0 <= i <= j,
    ensures
        root_signature_size(groups, i) <= root_signature_size(groups, j),
        base_root_index(groups, i) <= base_root_index(groups, j),
        base_root_index(groups, j) <= root_signature_size(groups, j),
    decreases j,
{
    if j > 0 {
        if i < j {
            lemma_root_signature_size_monotone(groups, i, j - 1);
        } else {
            lemma_root_signature_size_monotone(groups, j - 1, j - 1);
        }
    }
}

/// A bind group with a dynamic buffer among its entries has a root
/// descriptor.
proof fn lemma_dynamic_kinds_nonempty(entries: Seq<BindGroupLayoutEntry>, k: int)
    requires
        0 <= k < entries.len(),
        entries[k].dynamic_kind() is Some,
    ensures
        dynamic_kinds(entries).len() > 0,
    decreases entries.len(),
{
    if k < entries.len() - 1 {
        lemma_dynamic_kinds_nonempty(entries.drop_last(), k);
    }
}

/// A bind group with at least one entry owns at least one root parameter.
pub proof fn lemma_nonempty_group_has_parameter(entries: Seq<BindGroupLayoutEntry>)
    requires
        entries.len() > 0,
    ensures
        root_parameter_count(entries) >= 1,
{
    let e = entries[0];
    if e.in_view_table() {
    } else if e.in_sampler_table() {
    } else {
        lemma_dynamic_kinds_nonempty(entries, 0);
    }
}

/// The first bind group starts at root index zero, and the base root index
/// goes up from group to group as long as the groups between have entries.
pub proof fn lemma_base_root_index_increasing(
    groups: Seq<Seq<BindGroupLayoutEntry>>,
    i: int,
    j: int,
)
    requires
        0 <= i < j <= groups.len(),
        forall|k: int| i <= k < j ==> (#[trigger] groups[k]).len() > 0,
    ensures
        base_root_index(groups, 0) == 0,
        base_root_index(groups, i) < base_root_index(groups, j),
    decreases j,
{
    lemma_nonempty_group_has_parameter(groups[j - 1]);
    if i < j - 1 {
        lemma_base_root_index_increasing(groups, i, j - 1);
    }
}

/// The order in which the entries of bind groups are declared does not
/// reach the pipeline layout. Take two declarations of the same bind
/// groups that differ in the order of the entries within the groups: once
/// the entries are in canonical order, the record of each bind group is the
/// same for both.
pub proof fn lemma_pipeline_layout_of_permutation(
    a: Seq<Seq<BindGroupLayoutEntry>>,
    b: Seq<Seq<BindGroupLayoutEntry>>,
    i: int,
    x: BindGroupInfo,
    y: BindGroupInfo,
)
    requires
        a.len() == b.len(),
        0 <= i < a.len(),
        forall|k: int| 0 <= k < a.len() ==> (#[trigger] a[k]).to_multiset() == b[k].to_multiset(),
        describes_group(x, a.map_values(|s: Seq<BindGroupLayoutEntry>| canonical_order(s)), i),
        describes_group(y, b.map_values(|s: Seq<BindGroupLayoutEntry>| canonical_order(s)), i),
    ensures
        a.map_values(|s: Seq<BindGroupLayoutEntry>| canonical_order(s)) == b.map_values(
            |s: Seq<BindGroupLayoutEntry>| canonical_order(s),
        ),
        x.base_root_index == y.base_root_index,
        x.tables == y.tables,
        x.dynamic_buffers@ == y.dynamic_buffers@,
{
    let ca = a.map_values(|s: Seq<BindGroupLayoutEntry>| canonical_order(s));
    let cb = b.map_values(|s: Seq<BindGroupLayoutEntry>| canonical_order(s));
    assert forall|k: int| 0 <= k < ca.len() implies ca[k] == cb[k] by {
        lemma_canonical_order_of_permutation(a[k], b[k]);
    }
    TableTypes::lemma_same_tables(x.tables, y.tables);
}

/// The root signature of a pipeline and the record of what each bind group
/// owns in it.
#[derive(Debug)]
pub struct PipelineLayout {
    raw: RawHandle,
    // Storing for each associated bind group, which tables we created
    // in the root signature. This is required for binding descriptor sets.
    bind_group_infos: ArrayVec<BindGroupInfo, MAX_BIND_GROUPS>,
}

impl View for PipelineLayout {
    type V = Seq<BindGroupInfo>;

    closed spec fn view(&self) -> Seq<BindGroupInfo> {
        infos_of(self.bind_group_infos)
    }
}

/// Which tables a bind group needs and which root descriptors, in order.
fn scan_group(layout: &BindGroupLayout) -> (r: (TableTypes, Vec<BufferViewKind>))
    ensures
        r.0.wf(),
        r.0.has_views() == needs_view_table(layout@),
        r.0.has_samplers() == needs_sampler_table(layout@),
        r.1@ == dynamic_kinds(layout@),
{
    let mut tables = TableTypes::empty();
    let mut dynamic: Vec<BufferViewKind> = Vec::new();
    let mut k: usize = 0;
    while k < layout.entries.len()
        invariant
            k <= layout@.len(),
            layout@ == layout.entries@,
            tables.wf(),
            tables.has_views() == needs_view_table(layout@.take(k as int)),
            tables.has_samplers() == needs_sampler_table(layout@.take(k as int)),
            dynamic@ == dynamic_kinds(layout@.take(k as int)),
        decreases layout@.len() - k,
    {
        let e = layout.entries[k];
        let ghost before = layout@.take(k as int);
        let ghost after = layout@.take(k + 1);
        proof {
            // `after` holds the entries of `before` and `e` behind them
            assert(after.drop_last() =~= before);
            assert(after[k as int] == e);
            assert forall|i: int| 0 <= i < before.len() implies before[i] == after[i] by {}
        }
        if e.is_in_view_table() {
            tables.insert(TableTypes::srv_cbv_uav());
        }
        if e.is_in_sampler_table() {
            tables.insert(TableTypes::samplers());
        }
        match e.root_descriptor_kind() {
            Some(kind) => {
                dynamic.push(kind);
            },
            None => {},
        }
        k = k + 1;
    }
    proof {
        assert(layout@.take(k as int) =~= layout@);
    }
    (tables, dynamic)
}

/// What a root parameter is set to.
#[derive(Clone, Copy, Debug, PartialEq, Eq, Structural)]
pub enum RootElement {
    /// A descriptor table, by the GPU address of its first descriptor.
    Table(u64),
    /// A root descriptor of a buffer, by the GPU address that it starts at.
    DynamicOffsetBuffer { kind: BufferViewKind, address: u64 },
}

/// A root parameter and what it is set to.
#[derive(Clone, Copy, Debug, PartialEq, Eq, Structural)]
pub struct RootBinding {
    pub root_index: u32,
    pub element: RootElement,
}

/// Why a bind group cannot be bound.
#[derive(Clone, Copy, Debug, PartialEq, Eq, Structural)]
pub enum BindError {
    /// The pipeline layout has no bind group of that index.
    NoSuchGroup,
    /// The layout has a table of views for the group, the group has none.
    MissingViewTable,
    /// The layout has a table of samplers for the group, the group has none.
    MissingSamplerTable,
    /// The group does not have one buffer for each root descriptor.
    DynamicBufferCount,
    /// There is not one dynamic offset for each root descriptor.
    DynamicOffsetCount,
    /// A buffer address and its dynamic offset do not fit in 64 bits.
    AddressOverflow,
}

/// Whether the record of a bind group fits in a root signature.
pub open spec fn info_fits(info: BindGroupInfo) -> bool {
    &&& info.tables.wf()
    &&& info.base_root_index + info.tables.count() + info.dynamic_buffers@.len()
        <= MAX_ROOT_SIGNATURE_SIZE
}

/// Why a bind group cannot be bound with the given offsets, if it cannot.
pub open spec fn bind_error(info: BindGroupInfo, group: BindGroup, offsets: Seq<u32>) -> Option<
    BindError,
> {
    if info.tables.has_views() && group.gpu_views is None {
        Some(BindError::MissingViewTable)
    } else if info.tables.has_samplers() && group.gpu_samplers is None {
        Some(BindError::MissingSamplerTable)
    } else if group.dynamic_buffers@.len() != info.dynamic_buffers@.len() {
        Some(BindError::DynamicBufferCount)
    } else if offsets.len() != info.dynamic_buffers@.len() {
        Some(BindError::DynamicOffsetCount)
    } else if exists|k: int|
        0 <= k < offsets.len() && #[trigger] group.dynamic_buffers@[k] + offsets[k] > u64::MAX {
        Some(BindError::AddressOverflow)
    } else {
        None
    }
}

/// The root parameters of the tables of a bind group: the table of views
/// at the group's base root index, the table of samplers behind it.
pub open spec fn table_bindings(info: BindGroupInfo, group: BindGroup) -> Seq<RootBinding> {
    (if info.tables.has_views() {
        seq![
            RootBinding {
                root_index: info.base_root_index,
                element: RootElement::Table(group.gpu_views->0),
            },
        ]
    } else {
        Seq::empty()
    }) + (if info.tables.has_samplers() {
        seq![
            RootBinding {
                root_index: (info.base_root_index + (if info.tables.has_views() {
                    1int
                } else {
                    0int
                })) as u32,
                element: RootElement::Table(group.gpu_samplers->0),
            },
        ]
    } else {
        Seq::empty()
    })
}

/// The root descriptors of a bind group, behind its tables: the buffers
/// with a dynamic offset in the order of the layout's entries, each moved
/// by its offset.
pub open spec fn dynamic_bindings(info: BindGroupInfo, group: BindGroup, offsets: Seq<u32>) -> Seq<
    RootBinding,
> {
    Seq::new(
        info.dynamic_buffers@.len(),
        |k: int|
            RootBinding {
                root_index: (info.base_root_index + info.tables.count() + k) as u32,
                element: RootElement::DynamicOffsetBuffer {
                    kind: info.dynamic_buffers@[k],
                    address: (group.dynamic_buffers@[k] + offsets[k]) as u64,
                },
            },
    )
}

impl PipelineLayout {
    /// The root signature object.
    pub closed spec fn spec_raw(&self) -> RawHandle {
        self.raw
    }

    /// The layout's invariant: the record of each bind group fits in a root
    /// signature.
    pub open spec fn wf(&self) -> bool {
        forall|i: int| 0 <= i < self@.len() ==> info_fits(#[trigger] self@[i])
    }

    /// What to set the root parameters of a bind group to.
    ///
    /// The result lists the root parameters of the group in rising order:
    /// its tables, then its root descriptors. The dynamic offsets are taken
    /// in the order of the layout's entries with a dynamic offset. Nothing
    /// is bound when the group or the offsets do not match the layout.
    pub fn set_bind_group(&self, index: u32, group: &BindGroup, dynamic_offsets: &Vec<u32>) -> (r:
        Result<Vec<RootBinding>, BindError>)
        requires
            self.wf(),
        ensures
            index >= self@.len() ==> r == Err::<Vec<RootBinding>, BindError>(BindError::NoSuchGroup),
            index < self@.len() ==> match bind_error(self@[index as int], *group, dynamic_offsets@) {
                Some(e) => r == Err::<Vec<RootBinding>, BindError>(e),
                None => r matches Ok(bindings) && bindings@ == table_bindings(
                    self@[index as int],
                    *group,
                ) + dynamic_bindings(self@[index as int], *group, dynamic_offsets@),
            },
    {
        if index as usize >= infos_len(&self.bind_group_infos) {
            return Err(BindError::NoSuchGroup);
        }
        let info = infos_get(&self.bind_group_infos, index as usize);
        let mut bindings: Vec<RootBinding> = Vec::new();
        let mut root_index: u32 = info.base_root_index;
        // Bind CBV/SRC/UAV descriptor tables
        if info.tables.contains(TableTypes::srv_cbv_uav()) {
            match group.gpu_views {
                Some(address) => {
                    bindings.push(RootBinding { root_index, element: RootElement::Table(address) });
                    root_index = root_index + 1;
                },
                None => {
                    return Err(BindError::MissingViewTable);
                },
            }
        }
        // Bind Sampler descriptor tables.
        if info.tables.contains(TableTypes::samplers()) {
            match group.gpu_samplers {
                Some(address) => {
                    bindings.push(RootBinding { root_index, element: RootElement::Table(address) });
                    root_index = root_index + 1;
                },
                None => {
                    return Err(BindError::MissingSamplerTable);
                },
            }
        }
        let count = info.dynamic_buffers.len();
        if group.dynamic_buffers.len() != count {
            return Err(BindError::DynamicBufferCount);
        }
        if dynamic_offsets.len() != count {
            return Err(BindError::DynamicOffsetCount);
        }
        // Bind root descriptors
        let ghost tables = bindings@;
        let mut k: usize = 0;
        while k < count
            invariant
                k <= count,
                index < self@.len(),
                *info == self@[index as int],
                !(info.tables.has_views() && group.gpu_views is None),
                !(info.tables.has_samplers() && group.gpu_samplers is None),
                count == info.dynamic_buffers@.len(),
                group.dynamic_buffers@.len() == count,
                dynamic_offsets@.len() == count,
                info_fits(*info),
                root_index == info.base_root_index + info.tables.count() + k,
                forall|j: int|
                    0 <= j < k ==> #[trigger] group.dynamic_buffers@[j] + dynamic_offsets@[j]
                        <= u64::MAX,
                bindings@ == tables + dynamic_bindings(*info, *group, dynamic_offsets@).take(
                    k as int,
                ),
            decreases count - k,
        {
            let base = group.dynamic_buffers[k];
            let offset = dynamic_offsets[k] as u64;
            if offset > u64::MAX - base {
                return Err(BindError::AddressOverflow);
            }
            bindings.push(
                RootBinding {
                    root_index,
                    element: RootElement::DynamicOffsetBuffer {
                        kind: info.dynamic_buffers[k],
                        address: base + offset,
                    },
                },
            );
            root_index = root_index + 1;
            k = k + 1;
            assert(bindings@ =~= tables + dynamic_bindings(*info, *group, dynamic_offsets@).take(
                k as int,
            ));
        }
        Ok(bindings)
    }

    /// The root signature object.
    #[verifier::when_used_as_spec(spec_raw)]
    pub fn raw(&self) -> (raw: RawHandle)
        ensures
            raw == self.spec_raw(),
    {
        self.raw
    }

    /// Lays the bind groups out over the root parameters of the root
    /// signature `raw`: group after group, for each its table of views, its
    /// table of samplers, then one root descriptor for each buffer with a
    /// dynamic offset, in the order of the entries.
    ///
    /// Fails, and builds nothing, when there are more groups than
    /// `MAX_BIND_GROUPS` or the root parameters take more room than
    /// `MAX_ROOT_SIGNATURE_SIZE`.
    pub fn build(raw: RawHandle, layouts: &Vec<BindGroupLayout>) -> (r: Result<
        PipelineLayout,
        LayoutError,
    >)
        ensures
            r == Err::<PipelineLayout, LayoutError>(LayoutError::TooManyBindGroups)
                <==> layouts@.len() > MAX_BIND_GROUPS,
            r == Err::<PipelineLayout, LayoutError>(LayoutError::RootSignatureTooLarge) <==> layouts@.len()
                <= MAX_BIND_GROUPS && root_signature_size(
                groups_of(layouts@),
                layouts@.len() as int,
            ) > MAX_ROOT_SIGNATURE_SIZE,
            r matches Ok(layout) ==> {
                &&& layout.wf()
                &&& layout.spec_raw() == raw
                &&& layout@.len() == layouts@.len()
                &&& forall|i: int|
                    0 <= i < layout@.len() ==> describes_group(
                        #[trigger] layout@[i],
                        groups_of(layouts@),
                        i,
                    )
            },
    {
        if layouts.len() > MAX_BIND_GROUPS {
            return Err(LayoutError::TooManyBindGroups);
        }
        let ghost groups = groups_of(layouts@);
        let mut infos = infos_new();
        let mut next_index: u32 = 0;
        let mut size: u32 = 0;
        let mut g: usize = 0;
        while g < layouts.len()
            invariant
                g <= layouts@.len() <= MAX_BIND_GROUPS,
                groups == groups_of(layouts@),
                infos_of(infos).len() == g,
                next_index == base_root_index(groups, g as int),
                size == root_signature_size(groups, g as int),
                next_index <= size <= MAX_ROOT_SIGNATURE_SIZE,
                forall|i: int|
                    0 <= i < g ==> describes_group(#[trigger] infos_of(infos)[i], groups, i),
                forall|i: int| 0 <= i < g ==> info_fits(#[trigger] infos_of(infos)[i]),
            decreases layouts@.len() - g,
        {
            let (tables, dynamic) = scan_group(&layouts[g]);
            proof {
                lemma_root_signature_size_monotone(groups, g + 1, layouts@.len() as int);
            }
            if dynamic.len() > MAX_ROOT_SIGNATURE_SIZE as usize {
                return Err(LayoutError::RootSignatureTooLarge);
            }
            let mut table_count: u32 = 0;
            if tables.contains(TableTypes::srv_cbv_uav()) {
                table_count = table_count + 1;
            }
            if tables.contains(TableTypes::samplers()) {
                table_count = table_count + 1;
            }
            let root_descriptors: u32 = dynamic.len() as u32;
            let cost: u32 = table_count + 2 * root_descriptors;
            if cost > MAX_ROOT_SIGNATURE_SIZE - size {
                return Err(LayoutError::RootSignatureTooLarge);
            }
            let info = BindGroupInfo { base_root_index: next_index, tables, dynamic_buffers: dynamic };
            infos_push(&mut infos, info);
            next_index = next_index + table_count + root_descriptors;
            size = size + cost;
            g = g + 1;
        }
        Ok(PipelineLayout { raw, bind_group_infos: infos })
    }

    /// Number of bind groups.
    pub fn group_count(&self) -> (n: usize)
        ensures
            n == self@.len(),
            n <= MAX_BIND_GROUPS,
    {
        infos_len(&self.bind_group_infos)
    }

    /// The record of a bind group.
    pub fn bind_group_info(&self, index: usize) -> (info: Option<&BindGroupInfo>)
        ensures
            index < self@.len() ==> info == Some(&self@[index as int]),
            index >= self@.len() ==> info is None,
    {
        if index < infos_len(&self.bind_group_infos) {
            Some(infos_get(&self.bind_group_infos, index))
        } else {
            None
        }
    }
}

} // verus!
