//! Groups of named configuration settings with a byte-packed layout.
//!
//! A group is built in the open state, accepting boolean, numeric and
//! enumerated settings plus derived boolean predicates, and is then closed:
//! closing freezes the byte layout. Boolean settings and predicate bits are
//! packed, in declaration order from bit 0, into a leading region of whole
//! bytes; numeric and enumerated settings take one byte each after that
//! region, in declaration order. Adding to a closed group is refused,
//! because downstream accessor code has already been shaped around the
//! committed layout.

use vstd::prelude::*;

use crate::errors::GenError;
use crate::predicates::{intern_spec, PredicateKey, PredicatePool};

verus! {

/// The kind of a setting: an on/off flag, a number in `[0, 255]`, or one of
/// an ordered set of named values whose first member is the implicit
/// default.
#[derive(Debug)]
pub enum SettingKind {
    Bool,
    Num,
    Enum { members: Vec<String> },
}

/// A named setting. A setting always belongs to exactly one group.
#[derive(Debug)]
pub struct Setting {
    pub name: String,
    pub kind: SettingKind,
}

/// A derived boolean predicate registered with a group for precomputation:
/// it receives one bit in the group's packed bit region.
#[derive(Debug)]
pub struct GroupPredicate {
    pub name: String,
    pub pred: usize,
}

/// The mathematical value of a setting kind.
pub enum SettingKindV {
    Bool,
    Num,
    Enum(Seq<Seq<char>>),
}

/// The mathematical value of a setting.
pub struct SettingV {
    pub name: Seq<char>,
    pub kind: SettingKindV,
}

/// The mathematical value of a registered predicate.
pub struct PredV {
    pub name: Seq<char>,
    pub pred: usize,
}

/// The mathematical value of a setting group.
pub struct GroupV {
    pub name: Seq<char>,
    pub qual_mod: Option<Seq<char>>,
    pub settings: Seq<SettingV>,
    pub predicates: Seq<PredV>,
    pub closed: bool,
}

/// The views of a member-name list.
pub open spec fn member_views(ms: Seq<String>) -> Seq<Seq<char>> {
    ms.map_values(|m: String| m@)
}

/// The mathematical value of a setting kind.
pub open spec fn kind_view(k: SettingKind) -> SettingKindV {
    match k {
        SettingKind::Bool => SettingKindV::Bool,
        SettingKind::Num => SettingKindV::Num,
        SettingKind::Enum { members } => SettingKindV::Enum(member_views(members@)),
    }
}

/// The mathematical value of one setting.
pub open spec fn setting_view(s: Setting) -> SettingV {
    SettingV { name: s.name@, kind: kind_view(s.kind) }
}

/// The mathematical values of a setting list.
pub open spec fn settings_views(ss: Seq<Setting>) -> Seq<SettingV> {
    ss.map_values(|s: Setting| setting_view(s))
}

/// The mathematical values of a registered-predicate list.
pub open spec fn pred_views(ps: Seq<GroupPredicate>) -> Seq<PredV> {
    ps.map_values(|p: GroupPredicate| PredV { name: p.name@, pred: p.pred })
}

/// How many boolean settings a list holds.
pub open spec fn count_bools(s: Seq<SettingV>) -> int
    decreases s.len(),
{
    if s.len() == 0 {
        0
    } else {
        count_bools(s.drop_last()) + if s.last().kind is Bool {
            1int
        } else {
            0int
        }
    }
}

/// How many byte-sized (numeric or enumerated) settings a list holds.
pub open spec fn count_bytes(s: Seq<SettingV>) -> int
    decreases s.len(),
{
    if s.len() == 0 {
        0
    } else {
        count_bytes(s.drop_last()) + if s.last().kind is Bool {
            0int
        } else {
            1int
        }
    }
}

/// How many bits the packed region holds: one per boolean setting, one per
/// registered predicate.
pub open spec fn bits_total(g: GroupV) -> int {
    count_bools(g.settings) + g.predicates.len()
}

/// How many whole bytes the packed bit region takes.
pub open spec fn bit_bytes(g: GroupV) -> int {
    (bits_total(g) + 7) / 8
}

/// The number of bytes required to hold all settings and precomputed
/// predicates: the packed bit region rounded up to whole bytes, plus one
/// byte per numeric or enumerated setting.
pub open spec fn spec_byte_size(g: GroupV) -> int {
    bit_bytes(g) + count_bytes(g.settings)
}

/// The bit assigned to setting `i`, counted when it is boolean: the number
/// of boolean settings declared before it.
pub open spec fn spec_bool_bit(g: GroupV, i: int) -> int {
    count_bools(g.settings.take(i))
}

/// The bit assigned to registered predicate `j`: predicates follow all the
/// boolean settings, in first-registration order.
pub open spec fn spec_pred_bit(g: GroupV, j: int) -> int {
    count_bools(g.settings) + j
}

/// The byte assigned to setting `i`, counted when it is numeric or
/// enumerated: byte-sized settings follow the packed bit region in
/// declaration order.
pub open spec fn spec_byte_offset(g: GroupV, i: int) -> int {
    bit_bytes(g) + count_bytes(g.settings.take(i))
}

/// The single-bit mask for a bit index within its byte.
pub open spec fn spec_bit_mask(bit: int) -> u8 {
    let r = bit % 8;
    if r == 0 {
        1
    } else if r == 1 {
        2
    } else if r == 2 {
        4
    } else if r == 3 {
        8
    } else if r == 4 {
        16
    } else if r == 5 {
        32
    } else if r == 6 {
        64
    } else {
        128
    }
}

/// The single-bit mask for a bit index within its byte.
pub fn bit_mask(bit: u32) -> (r: u8)
    ensures
        r == spec_bit_mask(bit as int),
{
    match bit % 8 {
        0 => 1,
        1 => 2,
        2 => 4,
        3 => 8,
        4 => 16,
        5 => 32,
        6 => 64,
        _ => 128,
    }
}

/// Whether some setting or registered predicate of the group already bears
/// the name.
pub open spec fn spec_name_taken(g: GroupV, n: Seq<char>) -> bool {
    ||| exists|i: int| 0 <= i < g.settings.len() && g.settings[i].name == n
    ||| exists|j: int| 0 <= j < g.predicates.len() && g.predicates[j].name == n
}

/// Well-formedness of a group: the counts stay within the layout's reach
/// and all setting and predicate names are distinct, as is every registered
/// predicate.
pub open spec fn group_wf(g: GroupV) -> bool {
    &&& g.settings.len() <= 0xFFFF
    &&& g.predicates.len() <= 0xFFFF
    &&& forall|i: int, j: int|
        0 <= i < j < g.settings.len() ==> g.settings[i].name != g.settings[j].name
    &&& forall|i: int, j: int|
        0 <= i < j < g.predicates.len() ==> g.predicates[i].name != g.predicates[j].name
    &&& forall|i: int, j: int|
        0 <= i < g.settings.len() && 0 <= j < g.predicates.len() ==> g.settings[i].name
            != g.predicates[j].name
    &&& forall|i: int, j: int|
        0 <= i < j < g.predicates.len() ==> g.predicates[i].pred != g.predicates[j].pred
}

/// The index of the first setting bearing the name, or `-1`.
pub open spec fn spec_find_setting(s: Seq<SettingV>, n: Seq<char>) -> int
    decreases s.len(),
{
    if s.len() == 0 {
        -1
    } else if s[0].name == n {
        0
    } else {
        let r = spec_find_setting(s.drop_first(), n);
        if r < 0 {
            -1
        } else {
            r + 1
        }
    }
}

/// The index of the first registered predicate with the handle, or `-1`.
pub open spec fn spec_find_pred(s: Seq<PredV>, pred: usize) -> int
    decreases s.len(),
{
    if s.len() == 0 {
        -1
    } else if s[0].pred == pred {
        0
    } else {
        let r = spec_find_pred(s.drop_first(), pred);
        if r < 0 {
            -1
        } else {
            r + 1
        }
    }
}

/// What `spec_find_setting` returns: the first index bearing the name, or
/// `-1` when no setting bears it.
pub proof fn lemma_find_setting_props(s: Seq<SettingV>, n: Seq<char>)
    ensures
        spec_find_setting(s, n) == -1 ==> forall|m: int| 0 <= m < s.len() ==> s[m].name != n,
        spec_find_setting(s, n) >= 0 ==> {
            &&& spec_find_setting(s, n) < s.len()
            &&& s[spec_find_setting(s, n)].name == n
            &&& forall|m: int| 0 <= m < spec_find_setting(s, n) ==> s[m].name != n
        },
    decreases s.len(),
{
    if s.len() > 0 && s[0].name != n {
        lemma_find_setting_props(s.drop_first(), n);
        assert forall|m: int| 1 <= m < s.len() implies s.drop_first()[m - 1] == s[m] by {}
    }
}

/// What `spec_find_pred` returns: the first index with the handle, or `-1`
/// when it is not registered.
pub proof fn lemma_find_pred_props(s: Seq<PredV>, pred: usize)
    ensures
        spec_find_pred(s, pred) == -1 ==> forall|m: int| 0 <= m < s.len() ==> s[m].pred != pred,
        spec_find_pred(s, pred) >= 0 ==> {
            &&& spec_find_pred(s, pred) < s.len()
            &&& s[spec_find_pred(s, pred)].pred == pred
            &&& forall|m: int| 0 <= m < spec_find_pred(s, pred) ==> s[m].pred != pred
        },
    decreases s.len(),
{
    if s.len() > 0 && s[0].pred != pred {
        lemma_find_pred_props(s.drop_first(), pred);
        assert forall|m: int| 1 <= m < s.len() implies s.drop_first()[m - 1] == s[m] by {}
    }
}

/// Appending a setting raises `count_bools` or `count_bytes` by exactly one,
/// according to its kind.
pub proof fn lemma_count_push(s: Seq<SettingV>, x: SettingV)
    ensures
        count_bools(s.push(x)) == count_bools(s) + if x.kind is Bool {
            1int
        } else {
            0int
        },
        count_bytes(s.push(x)) == count_bytes(s) + if x.kind is Bool {
            0int
        } else {
            1int
        },
{
    assert(s.push(x).drop_last() =~= s);
    assert(s.push(x).last() == x);
}

/// The counters are bounded by the list's length.
pub proof fn lemma_count_bounds(s: Seq<SettingV>)
    ensures
        0 <= count_bools(s) <= s.len(),
        0 <= count_bytes(s) <= s.len(),
        count_bools(s) + count_bytes(s) == s.len(),
    decreases s.len(),
{
    if s.len() > 0 {
        lemma_count_bounds(s.drop_last());
    }
}

/// One step of a prefix scan over the settings.
pub proof fn lemma_count_take_step(s: Seq<SettingV>, i: int)
    requires
        0 <= i < s.len(),
    ensures
        count_bools(s.take(i + 1)) == count_bools(s.take(i)) + if s[i].kind is Bool {
            1int
        } else {
            0int
        },
        count_bytes(s.take(i + 1)) == count_bytes(s.take(i)) + if s[i].kind is Bool {
            0int
        } else {
            1int
        },
{
    assert(s.take(i + 1).drop_last() =~= s.take(i));
    assert(s.take(i + 1).last() == s[i]);
}

/// The whole list is its own full prefix.
pub proof fn lemma_count_take_all(s: Seq<SettingV>)
    ensures
        count_bools(s.take(s.len() as int)) == count_bools(s),
        count_bytes(s.take(s.len() as int)) == count_bytes(s),
{
    assert(s.take(s.len() as int) =~= s);
}

/// The byte size is monotonic: adding a setting of any kind, or registering
/// one more predicate, never shrinks it.
pub proof fn lemma_byte_size_monotone(g: GroupV, s: SettingV, p: PredV)
    ensures
        spec_byte_size(GroupV { settings: g.settings.push(s), ..g }) >= spec_byte_size(g),
        spec_byte_size(GroupV { predicates: g.predicates.push(p), ..g }) >= spec_byte_size(g),
{
    lemma_count_push(g.settings, s);
}

/// Accessor-generation metadata for one setting: where in the packed byte
/// record its value lives.
#[derive(Clone, Copy, Debug, PartialEq, Eq, Structural)]
pub enum SettingDescriptor {
    /// A boolean setting: a byte offset into the packed record, the bit
    /// number within the bit region, and the single-bit mask within the
    /// byte.
    Bool { byte_offset: u32, bit: u32, mask: u8 },
    /// A numeric setting: one whole byte, value range `[0, 255]`.
    Num { byte_offset: u32 },
    /// An enumerated setting: one whole byte holding the member ordinal;
    /// the first member, ordinal 0, is the implicit default.
    Enum { byte_offset: u32 },
}

/// The descriptor of setting `i` under the group's frozen layout.
pub open spec fn spec_descriptor(g: GroupV, i: int) -> SettingDescriptor {
    match g.settings[i].kind {
        SettingKindV::Bool => (SettingDescriptor::Bool {
            byte_offset: (spec_bool_bit(g, i) / 8) as u32,
            bit: spec_bool_bit(g, i) as u32,
            mask: spec_bit_mask(spec_bool_bit(g, i)),
        }),
        SettingKindV::Num => (SettingDescriptor::Num {
            byte_offset: spec_byte_offset(g, i) as u32,
        }),
        SettingKindV::Enum(_) => (SettingDescriptor::Enum {
            byte_offset: spec_byte_offset(g, i) as u32,
        }),
    }
}

/// A setting group.
///
/// Settings and derived predicates are appended while the group is open;
/// closing the group freezes its packed byte layout.
#[derive(Debug)]
pub struct _SettingGroup {
    name: String,
    qual_mod: Option<String>,
    settings: Vec<Setting>,
    predicates: Vec<GroupPredicate>,
    closed: bool,
}

impl View for _SettingGroup {
    type V = GroupV;

    closed spec fn view(&self) -> GroupV {
        GroupV {
            name: self.name@,
            qual_mod: match self.qual_mod {
                Some(q) => Some(q@),
                None => None,
            },
            settings: settings_views(self.settings@),
            predicates: pred_views(self.predicates@),
            closed: self.closed,
        }
    }
}

impl _SettingGroup {
    /// A new group in the open state, with a short mnemonic name and an
    /// optional fully qualified module name for cross-artifact naming.
    pub fn new(name: &str, qual_mod: Option<&str>) -> (r: Self)
        ensures
            r@.name == name@,
            r@.qual_mod == match qual_mod {
                Some(q) => Some(q@),
                None => None::<Seq<char>>,
            },
            r@.settings == Seq::<SettingV>::empty(),
            r@.predicates == Seq::<PredV>::empty(),
            !r@.closed,
            group_wf(r@),
    {
        let r = _SettingGroup {
            name: String::from_str(name),
            qual_mod: match qual_mod {
                Some(q) => Some(String::from_str(q)),
                None => None,
            },
            settings: Vec::new(),
            predicates: Vec::new(),
            closed: false,
        };
        proof {
            assert(r@.settings =~= Seq::<SettingV>::empty());
            assert(r@.predicates =~= Seq::<PredV>::empty());
        }
        r
    }

    /// Get the short mnemonic name of this setting group.
    pub fn name(&self) -> (r: &str)
        ensures
            r@ == self@.name,
    {
        self.name.as_str()
    }

    /// Whether the group has been closed: its byte layout is then frozen.
    pub fn is_closed(&self) -> (r: bool)
        ensures
            r == self@.closed,
    {
        self.closed
    }

    /// The settings of this group, in declaration order.
    pub fn settings(&self) -> (r: &Vec<Setting>)
        ensures
            settings_views(r@) == self@.settings,
    {
        &self.settings
    }

    /// The registered predicates of this group, in first-registration
    /// order.
    pub fn predicates(&self) -> (r: &Vec<GroupPredicate>)
        ensures
            pred_views(r@) == self@.predicates,
    {
        &self.predicates
    }

    /// The index of the first setting bearing `name`, scanning in
    /// declaration order.
    fn find_setting(&self, name: &String) -> (r: Option<usize>)
        ensures
            ({
                let f = spec_find_setting(self@.settings, name@);
                match r {
                    Some(i) => f == i,
                    None => f == -1,
                }
            }),
    {
        let n = self.settings.len();
        let mut i: usize = 0;
        while i < n
            invariant
                i <= n,
                n == self@.settings.len(),
                n == self.settings@.len(),
                forall|m: int| 0 <= m < i ==> self@.settings[m].name != name@,
            decreases n - i,
        {
            proof {
                assert(self@.settings[i as int] == setting_view(self.settings@[i as int]));
            }
            if self.settings[i].name == *name {
                proof {
                    lemma_find_setting_props(self@.settings, name@);
                    let f = spec_find_setting(self@.settings, name@);
                    assert(f >= 0);
                    assert(f >= i);
                    assert(f <= i);
                }
                return Some(i);
            }
            i += 1;
        }
        proof {
            lemma_find_setting_props(self@.settings, name@);
            if spec_find_setting(self@.settings, name@) >= 0 {
                assert(self@.settings[spec_find_setting(self@.settings, name@)].name == name@);
            }
        }
        None
    }

    /// Whether `name` already names a registered predicate.
    fn pred_name_taken(&self, name: &String) -> (r: bool)
        ensures
            r == exists|j: int|
                0 <= j < self@.predicates.len() && self@.predicates[j].name == name@,
    {
        let n = self.predicates.len();
        let mut j: usize = 0;
        while j < n
            invariant
                j <= n,
                n == self@.predicates.len(),
                n == self.predicates@.len(),
                forall|m: int| 0 <= m < j ==> self@.predicates[m].name != name@,
            decreases n - j,
        {
            proof {
                assert(self@.predicates[j as int].name == self.predicates@[j as int].name@);
            }
            if self.predicates[j].name == *name {
                return true;
            }
            j += 1;
        }
        false
    }

    /// Append one setting, after the lifecycle and duplicate-name checks.
    fn add_setting(&mut self, name: &str, kind: SettingKind) -> (r: Result<(), GenError>)
        requires
            old(self)@.settings.len() < 0xFFFF,
        ensures
            old(self)@.closed ==> r == Err::<(), GenError>(GenError::GroupAlreadyClosed)
                && final(self)@ == old(self)@,
            !old(self)@.closed && spec_name_taken(old(self)@, name@) ==> r == Err::<(),
            GenError>(GenError::DuplicateSettingName) && final(self)@ == old(self)@,
            !old(self)@.closed && !spec_name_taken(old(self)@, name@) ==> r == Ok::<(),
            GenError>(()) && final(self)@ == (GroupV {
                settings: old(self)@.settings.push(SettingV { name: name@, kind: kind_view(kind) }),
                ..old(self)@
            }),
            group_wf(old(self)@) ==> group_wf(final(self)@),
    {
        if self.closed {
            return Err(GenError::GroupAlreadyClosed);
        }
        let name_s = String::from_str(name);
        if let Some(_i) = self.find_setting(&name_s) {
            proof {
                lemma_find_setting_props(self@.settings, name@);
            }
            return Err(GenError::DuplicateSettingName);
        }
        if self.pred_name_taken(&name_s) {
            return Err(GenError::DuplicateSettingName);
        }
        proof {
            lemma_find_setting_props(self@.settings, name@);
        }
        let ghost before = self.settings@;
        let s = Setting { name: name_s, kind };
        let ghost snode = s;
        self.settings.push(s);
        proof {
            assert(settings_views(before.push(snode)) =~= settings_views(before).push(
                setting_view(snode),
            ));
        }
        Ok(())
    }

    /// Add a boolean on/off setting.
    pub fn add_bool(&mut self, name: &str) -> (r: Result<(), GenError>)
        requires
            old(self)@.settings.len() < 0xFFFF,
        ensures
            old(self)@.closed ==> r == Err::<(), GenError>(GenError::GroupAlreadyClosed)
                && final(self)@ == old(self)@,
            !old(self)@.closed && spec_name_taken(old(self)@, name@) ==> r == Err::<(),
            GenError>(GenError::DuplicateSettingName) && final(self)@ == old(self)@,
            !old(self)@.closed && !spec_name_taken(old(self)@, name@) ==> r == Ok::<(),
            GenError>(()) && final(self)@ == (GroupV {
                settings: old(self)@.settings.push(SettingV { name: name@, kind: SettingKindV::Bool }),
                ..old(self)@
            }),
            group_wf(old(self)@) ==> group_wf(final(self)@),
    {
        self.add_setting(name, SettingKind::Bool)
    }

    /// Add a numeric setting with a value range of `[0, 255]`.
    pub fn add_num(&mut self, name: &str) -> (r: Result<(), GenError>)
        requires
            old(self)@.settings.len() < 0xFFFF,
        ensures
            old(self)@.closed ==> r == Err::<(), GenError>(GenError::GroupAlreadyClosed)
                && final(self)@ == old(self)@,
            !old(self)@.closed && spec_name_taken(old(self)@, name@) ==> r == Err::<(),
            GenError>(GenError::DuplicateSettingName) && final(self)@ == old(self)@,
            !old(self)@.closed && !spec_name_taken(old(self)@, name@) ==> r == Ok::<(),
            GenError>(()) && final(self)@ == (GroupV {
                settings: old(self)@.settings.push(SettingV { name: name@, kind: SettingKindV::Num }),
                ..old(self)@
            }),
            group_wf(old(self)@) ==> group_wf(final(self)@),
    {
        self.add_setting(name, SettingKind::Num)
    }

    /// Add an enumerated setting. The members are its ordered, distinct
    /// possible values; the first member is the implicit default.
    pub fn add_enum(&mut self, name: &str, members: Vec<String>) -> (r: Result<(), GenError>)
        requires
            old(self)@.settings.len() < 0xFFFF,
            1 <= members@.len() <= 0x100,
            forall|i: int, j: int| 0 <= i < j < members@.len() ==> members@[i]@ != members@[j]@,
        ensures
            old(self)@.closed ==> r == Err::<(), GenError>(GenError::GroupAlreadyClosed)
                && final(self)@ == old(self)@,
            !old(self)@.closed && spec_name_taken(old(self)@, name@) ==> r == Err::<(),
            GenError>(GenError::DuplicateSettingName) && final(self)@ == old(self)@,
            !old(self)@.closed && !spec_name_taken(old(self)@, name@) ==> r == Ok::<(),
            GenError>(()) && final(self)@ == (GroupV {
                settings: old(self)@.settings.push(
                    SettingV { name: name@, kind: SettingKindV::Enum(member_views(members@)) },
                ),
                ..old(self)@
            }),
            group_wf(old(self)@) ==> group_wf(final(self)@),
    {
        self.add_setting(name, SettingKind::Enum { members })
    }

    /// Register a derived boolean predicate for precomputation. The first
    /// registration of a handle assigns its bit; registering the same
    /// handle again changes nothing.
    pub fn add_predicate(&mut self, name: &str, pred: usize) -> (r: Result<(), GenError>)
        requires
            old(self)@.predicates.len() < 0xFFFF,
        ensures
            old(self)@.closed ==> r == Err::<(), GenError>(GenError::GroupAlreadyClosed)
                && final(self)@ == old(self)@,
            !old(self)@.closed && spec_find_pred(old(self)@.predicates, pred) >= 0 ==> r == Ok::<
                (),
                GenError,
            >(()) && final(self)@ == old(self)@,
            !old(self)@.closed && spec_find_pred(old(self)@.predicates, pred) == -1
                && spec_name_taken(old(self)@, name@) ==> r == Err::<(), GenError>(
                GenError::DuplicateSettingName,
            ) && final(self)@ == old(self)@,
            !old(self)@.closed && spec_find_pred(old(self)@.predicates, pred) == -1
                && !spec_name_taken(old(self)@, name@) ==> r == Ok::<(), GenError>(())
                && final(self)@ == (GroupV {
                predicates: old(self)@.predicates.push(PredV { name: name@, pred: pred }),
                ..old(self)@
            }),
            group_wf(old(self)@) ==> group_wf(final(self)@),
    {
        if self.closed {
            return Err(GenError::GroupAlreadyClosed);
        }
        let n = self.predicates.len();
        let mut j: usize = 0;
        while j < n
            invariant
                j <= n,
                n == self@.predicates.len(),
                n == self.predicates@.len(),
                *self == *old(self),
                !self@.closed,
                forall|m: int| 0 <= m < j ==> self@.predicates[m].pred != pred,
            decreases n - j,
        {
            proof {
                assert(self@.predicates[j as int].pred == self.predicates@[j as int].pred);
            }
            if self.predicates[j].pred == pred {
                proof {
                    lemma_find_pred_props(self@.predicates, pred);
                    let f = spec_find_pred(self@.predicates, pred);
                    assert(f >= 0);
                }
                return Ok(());
            }
            j += 1;
        }
        proof {
            lemma_find_pred_props(self@.predicates, pred);
            if spec_find_pred(self@.predicates, pred) >= 0 {
                assert(self@.predicates[spec_find_pred(self@.predicates, pred)].pred == pred);
            }
        }
        let name_s = String::from_str(name);
        if let Some(_i) = self.find_setting(&name_s) {
            proof {
                lemma_find_setting_props(self@.settings, name@);
            }
            return Err(GenError::DuplicateSettingName);
        }
        if self.pred_name_taken(&name_s) {
            return Err(GenError::DuplicateSettingName);
        }
        proof {
            lemma_find_setting_props(self@.settings, name@);
        }
        let ghost before = self.predicates@;
        let p = GroupPredicate { name: name_s, pred };
        let ghost pnode = p;
        self.predicates.push(p);
        proof {
            assert(pred_views(before.push(pnode)) =~= pred_views(before).push(
                PredV { name: name@, pred: pred },
            ));
        }
        Ok(())
    }

    /// The number of whole bytes taken by the packed bit region.
    pub(crate) fn bits_region_bytes(&self) -> (r: u32)
        requires
            self@.settings.len() <= 0xFFFF,
            self@.predicates.len() <= 0xFFFF,
        ensures
            r == bit_bytes(self@),
    {
        let nb = self.count_bool_settings();
        let np = self.predicates.len();
        proof {
            lemma_count_bounds(self@.settings);
        }
        ((nb + np as u32) + 7) / 8
    }

    /// How many boolean settings the group holds.
    pub(crate) fn count_bool_settings(&self) -> (r: u32)
        requires
            self@.settings.len() <= 0xFFFF,
        ensures
            r == count_bools(self@.settings),
    {
        let n = self.settings.len();
        let mut nb: u32 = 0;
        let mut i: usize = 0;
        while i < n
            invariant
                i <= n,
                n == self@.settings.len(),
                n == self.settings@.len(),
                n <= 0xFFFF,
                nb == count_bools(self@.settings.take(i as int)),
                nb <= i,
            decreases n - i,
        {
            proof {
                lemma_count_take_step(self@.settings, i as int);
                assert(self@.settings[i as int] == setting_view(self.settings@[i as int]));
            }
            let is_bool = match self.settings[i].kind {
                SettingKind::Bool => true,
                _ => false,
            };
            if is_bool {
                nb = nb + 1;
            }
            i += 1;
        }
        proof {
            lemma_count_take_all(self@.settings);
        }
        nb
    }

    /// How many byte-sized settings the group holds.
    fn count_byte_settings(&self) -> (r: u32)
        requires
            self@.settings.len() <= 0xFFFF,
        ensures
            r == count_bytes(self@.settings),
    {
        let n = self.settings.len();
        let mut nby: u32 = 0;
        let mut i: usize = 0;
        while i < n
            invariant
                i <= n,
                n == self@.settings.len(),
                n == self.settings@.len(),
                n <= 0xFFFF,
                nby == count_bytes(self@.settings.take(i as int)),
                nby <= i,
            decreases n - i,
        {
            proof {
                lemma_count_take_step(self@.settings, i as int);
                assert(self@.settings[i as int] == setting_view(self.settings@[i as int]));
            }
            let is_bool = match self.settings[i].kind {
                SettingKind::Bool => true,
                _ => false,
            };
            if !is_bool {
                nby = nby + 1;
            }
            i += 1;
        }
        proof {
            lemma_count_take_all(self@.settings);
        }
        nby
    }

    /// Compute the number of bytes required to hold all settings and
    /// precomputed predicates: the packed bit region rounded up to whole
    /// bytes, plus one byte per numeric or enumerated setting.
    pub fn byte_size(&self) -> (r: u32)
        requires
            self@.settings.len() <= 0xFFFF,
            self@.predicates.len() <= 0xFFFF,
        ensures
            r == spec_byte_size(self@),
    {
        proof {
            lemma_count_bounds(self@.settings);
        }
        self.bits_region_bytes() + self.count_byte_settings()
    }

    /// The accessor-generation metadata of the first setting bearing
    /// `name`: for a boolean setting its byte offset, bit number and bit
    /// mask; for a numeric or enumerated setting its byte offset.
    /// Referring to a setting that does not exist is a fatal configuration
    /// error.
    pub fn setting_descriptor(&self, name: &str) -> (r: Result<SettingDescriptor, GenError>)
        requires
            self@.settings.len() <= 0xFFFF,
            self@.predicates.len() <= 0xFFFF,
        ensures
            spec_find_setting(self@.settings, name@) == -1 ==> r == Err::<
                SettingDescriptor,
                GenError,
            >(GenError::UnknownSettingReference),
            spec_find_setting(self@.settings, name@) >= 0 ==> r == Ok::<
                SettingDescriptor,
                GenError,
            >(spec_descriptor(self@, spec_find_setting(self@.settings, name@))),
    {
        let name_s = String::from_str(name);
        let bb = self.bits_region_bytes();
        proof {
            lemma_count_bounds(self@.settings);
        }
        let n = self.settings.len();
        let mut nbool: u32 = 0;
        let mut nbyte: u32 = 0;
        let mut i: usize = 0;
        while i < n
            invariant
                i <= n,
                n == self@.settings.len(),
                n == self.settings@.len(),
                n <= 0xFFFF,
                bb == bit_bytes(self@),
                bb <= 0x4001,
                name_s@ == name@,
                nbool == count_bools(self@.settings.take(i as int)),
                nbyte == count_bytes(self@.settings.take(i as int)),
                nbool <= i,
                nbyte <= i,
                forall|m: int| 0 <= m < i ==> self@.settings[m].name != name@,
            decreases n - i,
        {
            proof {
                lemma_count_take_step(self@.settings, i as int);
                assert(self@.settings[i as int] == setting_view(self.settings@[i as int]));
            }
            if self.settings[i].name == name_s {
                proof {
                    lemma_find_setting_props(self@.settings, name@);
                    let f = spec_find_setting(self@.settings, name@);
                    assert(f >= 0);
                    assert(f >= i);
                    assert(f <= i);
                }
                let d = match self.settings[i].kind {
                    SettingKind::Bool => {
                        let mask: u8 = match nbool % 8 {
                            0 => 1,
                            1 => 2,
                            2 => 4,
                            3 => 8,
                            4 => 16,
                            5 => 32,
                            6 => 64,
                            _ => 128,
                        };
                        SettingDescriptor::Bool { byte_offset: nbool / 8, bit: nbool, mask }
                    },
                    SettingKind::Num => SettingDescriptor::Num { byte_offset: bb + nbyte },
                    SettingKind::Enum { .. } => SettingDescriptor::Enum { byte_offset: bb + nbyte },
                };
                return Ok(d);
            }
            let is_bool = match self.settings[i].kind {
                SettingKind::Bool => true,
                _ => false,
            };
            if is_bool {
                nbool = nbool + 1;
            } else {
                nbyte = nbyte + 1;
            }
            i += 1;
        }
        proof {
            lemma_find_setting_props(self@.settings, name@);
            if spec_find_setting(self@.settings, name@) >= 0 {
                assert(self@.settings[spec_find_setting(self@.settings, name@)].name == name@);
            }
        }
        Err(GenError::UnknownSettingReference)
    }

    /// A predicate leaf testing the boolean setting bearing `name`: the
    /// leaf's field number is the setting's index within this group.
    /// Referring to an unknown name, or to a setting that is not boolean,
    /// is a fatal configuration error and leaves the pool unchanged.
    pub fn bool_setting_leaf(&self, pool: &mut PredicatePool, name: &str) -> (r: Result<
        usize,
        GenError,
    >)
        ensures
            ({
                let f = spec_find_setting(self@.settings, name@);
                if f >= 0 && self@.settings[f].kind is Bool {
                    let (s2, id) = intern_spec(old(pool)@, PredicateKey::Leaf(f as u64));
                    final(pool)@ == s2 && r == Ok::<usize, GenError>(id as usize)
                } else {
                    final(pool)@ == old(pool)@ && r == Err::<usize, GenError>(
                        GenError::UnknownSettingReference,
                    )
                }
            }),
    {
        let name_s = String::from_str(name);
        match self.find_setting(&name_s) {
            Some(i) => {
                proof {
                    lemma_find_setting_props(self@.settings, name@);
                    assert(self@.settings[i as int] == setting_view(self.settings@[i as int]));
                }
                let is_bool = match self.settings[i].kind {
                    SettingKind::Bool => true,
                    _ => false,
                };
                if is_bool {
                    Ok(pool.leaf(i as u64))
                } else {
                    Err(GenError::UnknownSettingReference)
                }
            },
            None => Err(GenError::UnknownSettingReference),
        }
    }

    /// The bit assigned to a registered predicate: predicates follow all
    /// boolean settings, in first-registration order. `None` when the
    /// handle was never registered.
    pub fn predicate_bit(&self, pred: usize) -> (r: Option<u32>)
        requires
            self@.settings.len() <= 0xFFFF,
            self@.predicates.len() <= 0xFFFF,
        ensures
            ({
                let f = spec_find_pred(self@.predicates, pred);
                if f >= 0 {
                    r == Some(spec_pred_bit(self@, f) as u32)
                } else {
                    r == None::<u32>
                }
            }),
    {
        let nb = self.count_bool_settings();
        proof {
            lemma_count_bounds(self@.settings);
        }
        let n = self.predicates.len();
        let mut j: usize = 0;
        while j < n
            invariant
                j <= n,
                n == self@.predicates.len(),
                n == self.predicates@.len(),
                n <= 0xFFFF,
                nb == count_bools(self@.settings),
                nb <= 0xFFFF,
                forall|m: int| 0 <= m < j ==> self@.predicates[m].pred != pred,
            decreases n - j,
        {
            proof {
                assert(self@.predicates[j as int].pred == self.predicates@[j as int].pred);
            }
            if self.predicates[j].pred == pred {
                proof {
                    lemma_find_pred_props(self@.predicates, pred);
                    let f = spec_find_pred(self@.predicates, pred);
                    assert(f >= 0);
                    assert(f >= j);
                    assert(f <= j);
                }
                return Some(nb + j as u32);
            }
            j += 1;
        }
        proof {
            lemma_find_pred_props(self@.predicates, pred);
            if spec_find_pred(self@.predicates, pred) >= 0 {
                assert(self@.predicates[spec_find_pred(self@.predicates, pred)].pred == pred);
            }
        }
        None
    }

    /// Close this setting group: freeze the byte layout and return the
    /// packed byte size. Closing an already-closed group is a no-op that
    /// returns the same size.
    pub fn close(&mut self) -> (r: u32)
        requires
            old(self)@.settings.len() <= 0xFFFF,
            old(self)@.predicates.len() <= 0xFFFF,
        ensures
            final(self)@ == (GroupV { closed: true, ..old(self)@ }),
            r == spec_byte_size(old(self)@),
            group_wf(old(self)@) ==> group_wf(final(self)@),
    {
        self.closed = true;
        self.byte_size()
    }
}

} // verus!
