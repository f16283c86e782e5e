//! The bidirectional lookup-table translator: toward the controller a
//! numeric code becomes its display label; toward the instrument a label
//! becomes its code. An argument with no table entry passes through
//! unchanged.

use crate::extension::TranslationError;
use crate::labeler::LabeledMessage;
use crate::numeric::{f32_trunc_i32, f64_trunc_i32, spec_f32_trunc, spec_f64_trunc};
use crate::osc::Arg;
use crate::text::{parse_i32, spec_parse_i32};
use vstd::prelude::*;

verus! {

broadcast use vstd::seq::group_seq_axioms;

/// An injective mapping between integer codes and display labels for one
/// parameter family, ordered as it was built.
pub struct LookupTable {
    pub entries: Vec<(i32, String)>,
}

/// The code of the first entry carrying the given label, scanning in order.
pub open spec fn spec_reverse_at(s: Seq<(i32, String)>, label: Seq<char>) -> Option<i32>
    decreases s.len(),
{
    if s.len() == 0 {
        None
    } else if s[0].1@ == label {
        Some(s[0].0)
    } else {
        spec_reverse_at(s.drop_first(), label)
    }
}

/// The label of the first entry carrying the given code, scanning in order.
pub open spec fn spec_lookup_at(s: Seq<(i32, String)>, key: int) -> Option<Seq<char>>
    decreases s.len(),
{
    if s.len() == 0 {
        None
    } else if s[0].0 as int == key {
        Some(s[0].1@)
    } else {
        spec_lookup_at(s.drop_first(), key)
    }
}

impl LookupTable {
    /// No two entries share a code, and no two entries share a label: the
    /// mapping is a bijection within the table.
    pub open spec fn wf(self) -> bool {
        forall|i: int, j: int|
            0 <= i < j < self.entries@.len() ==> #[trigger] self.entries@[i].0
                != #[trigger] self.entries@[j].0 && self.entries@[i].1@ != self.entries@[j].1@
    }

    /// Some entry carries this code.
    pub open spec fn spec_has_key(self, key: int) -> bool {
        spec_lookup_at(self.entries@, key) is Some
    }

    /// The label for a code, by the first matching entry.
    pub open spec fn spec_lookup(self, key: int) -> Option<Seq<char>> {
        spec_lookup_at(self.entries@, key)
    }

    /// The code for a label, by the first matching entry.
    pub open spec fn spec_reverse(self, label: Seq<char>) -> Option<i32> {
        spec_reverse_at(self.entries@, label)
    }

    /// Finds the label for a code.
    pub fn get(&self, key: i32) -> (r: Option<String>)
        ensures
            (r is Some) == (self.spec_lookup(key as int) is Some),
            r matches Some(s) ==> self.spec_lookup(key as int) == Some(s@),
    {
        let n = self.entries.len();
        let mut i: usize = 0;
        assert(self.entries@.skip(0) =~= self.entries@);
        while i < n
            invariant
                n == self.entries@.len(),
                i <= n,
                spec_lookup_at(self.entries@.skip(i as int), key as int) == spec_lookup_at(
                    self.entries@,
                    key as int,
                ),
            decreases n - i,
        {
            assert(self.entries@.skip(i as int)[0] == self.entries@[i as int]);
            assert(self.entries@.skip(i as int).drop_first() =~= self.entries@.skip(i + 1));
            if self.entries[i].0 == key {
                return Some(self.entries[i].1.clone());
            }
            i += 1;
        }
        assert(self.entries@.skip(n as int) =~= Seq::<(i32, String)>::empty());
        None
    }

    /// Checks the table invariant: every code and every label occurs once.
    pub fn is_bijective(&self) -> (r: bool)
        ensures
            r == self.wf(),
    {
        let n = self.entries.len();
        let mut i: usize = 0;
        while i < n
            invariant
                n == self.entries@.len(),
                i <= n,
                forall|a: int, b: int|
                    0 <= a < i && a < b < n ==> #[trigger] self.entries@[a].0
                        != #[trigger] self.entries@[b].0 && self.entries@[a].1@
                        != self.entries@[b].1@,
            decreases n - i,
        {
            let mut j: usize = i + 1;
            while j < n
                invariant
                    n == self.entries@.len(),
                    i < j <= n,
                    i < n,
                    forall|b: int|
                        i < b < j ==> #[trigger] self.entries@[i as int].0 != self.entries@[b].0
                            && self.entries@[i as int].1@ != self.entries@[b].1@,
                decreases n - j,
            {
                if self.entries[i].0 == self.entries[j].0 || self.entries[i].1.eq(
                    &self.entries[j].1,
                ) {
                    return false;
                }
                j += 1;
            }
            i += 1;
        }
        true
    }
}

/// Finds the code whose label equals `value`, by the first matching entry.
pub fn reverse_lookup(value: &String, table: &LookupTable) -> (r: Option<i32>)
    ensures
        r == table.spec_reverse(value@),
{
    let n = table.entries.len();
    let mut i: usize = 0;
    assert(table.entries@.skip(0) =~= table.entries@);
    while i < n
        invariant
            n == table.entries@.len(),
            i <= n,
            spec_reverse_at(table.entries@.skip(i as int), value@) == spec_reverse_at(
                table.entries@,
                value@,
            ),
        decreases n - i,
    {
        assert(table.entries@.skip(i as int)[0] == table.entries@[i as int]);
        assert(table.entries@.skip(i as int).drop_first() =~= table.entries@.skip(i + 1));
        if table.entries[i].1.eq(value) {
            return Some(table.entries[i].0);
        }
        i += 1;
    }
    assert(table.entries@.skip(n as int) =~= Seq::<(i32, String)>::empty());
    None
}

/// A found label is the label of some entry with the looked-up code.
proof fn lemma_lookup_at_witness(s: Seq<(i32, String)>, key: int)
    requires
        spec_lookup_at(s, key) is Some,
    ensures
        exists|i: int|
            0 <= i < s.len() && #[trigger] s[i].0 as int == key && s[i].1@ == spec_lookup_at(
                s,
                key,
            ).unwrap(),
    decreases s.len(),
{
    if s[0].0 as int == key {
        assert(s[0].0 as int == key && s[0].1@ == spec_lookup_at(s, key).unwrap());
    } else {
        lemma_lookup_at_witness(s.drop_first(), key);
        let i = choose|i: int|
            0 <= i < s.drop_first().len() && #[trigger] s.drop_first()[i].0 as int == key
                && s.drop_first()[i].1@ == spec_lookup_at(s.drop_first(), key).unwrap();
        assert(s[i + 1].0 as int == key && s[i + 1].1@ == spec_lookup_at(s, key).unwrap());
    }
}

/// Looking a code up and reverse-looking the resulting label up returns the
/// original code: the round trip holds for every code present in a
/// well-formed table.
pub proof fn lemma_reverse_of_lookup(table: LookupTable, key: i32)
    requires
        table.wf(),
        table.spec_has_key(key as int),
    ensures
        table.spec_reverse(table.spec_lookup(key as int).unwrap()) == Some(key),
{
    let s = table.entries@;
    assert(forall|i: int, j: int|
        0 <= i < j < s.len() ==> #[trigger] s[i].0 != #[trigger] s[j].0 && s[i].1@ != s[j].1@);
    lemma_roundtrip_at(s, key);
}

/// The round trip on the entry sequence, by induction over the scan.
proof fn lemma_roundtrip_at(s: Seq<(i32, String)>, key: i32)
    requires
        forall|i: int, j: int|
            0 <= i < j < s.len() ==> #[trigger] s[i].0 != #[trigger] s[j].0 && s[i].1@ != s[j].1@,
        spec_lookup_at(s, key as int) is Some,
    ensures
        spec_reverse_at(s, spec_lookup_at(s, key as int).unwrap()) == Some(key),
    decreases s.len(),
{
    let label = spec_lookup_at(s, key as int).unwrap();
    if s[0].0 as int == key as int {
        assert(s[0].1@ == label);
        assert(spec_reverse_at(s, label) == Some(s[0].0));
        assert(s[0].0 == key);
    } else {
        let tail = s.drop_first();
        assert(forall|i: int, j: int|
            0 <= i < j < tail.len() ==> #[trigger] tail[i].0 != #[trigger] tail[j].0
                && tail[i].1@ != tail[j].1@) by {
            assert(forall|i: int| 0 <= i < tail.len() ==> #[trigger] tail[i] == s[i + 1]);
        }
        lemma_roundtrip_at(tail, key);
        lemma_lookup_at_witness(tail, key as int);
        let w = choose|i: int|
            0 <= i < tail.len() && #[trigger] tail[i].0 as int == key as int && tail[i].1@
                == spec_lookup_at(tail, key as int).unwrap();
        assert(tail[w] == s[w + 1]);
        assert(s[0].1@ != s[w + 1].1@);
        assert(s[0].1@ != label);
    }
}

/// The integer key denoted by an argument, for the controller direction:
/// integers directly, floating-point bit patterns by truncation, strings by
/// decimal parsing (an unparsable string denotes 0), characters by their
/// scalar value. Every other variant denotes no key.
pub open spec fn spec_arg_key(a: Arg) -> Option<int> {
    match a {
        Arg::Int(v) => Some(v as int),
        Arg::Float(b) => Some(spec_f32_trunc(b)),
        Arg::Str(s) => Some(
            match spec_parse_i32(s@) {
                Some(v) => v as int,
                None => 0,
            },
        ),
        Arg::Long(l) => Some(l as i32 as int),
        Arg::Double(b) => Some(spec_f64_trunc(b)),
        Arg::Char(c) => Some(c as i32 as int),
        _ => None,
    }
}

/// Coerces an argument to its integer key, as `spec_arg_key` denotes it.
pub fn arg_key(a: &Arg) -> (r: Option<i32>)
    ensures
        r matches Some(k) ==> spec_arg_key(*a) == Some(k as int),
        (r is Some) == (spec_arg_key(*a) is Some),
{
    match a {
        Arg::Int(v) => Some(*v),
        Arg::Float(b) => Some(f32_trunc_i32(*b)),
        Arg::Str(s) => Some(
            match parse_i32(s.as_str()) {
                Some(v) => v,
                None => 0,
            },
        ),
        Arg::Long(l) => Some(#[verifier::truncate] (*l as i32)),
        Arg::Double(b) => Some(f64_trunc_i32(*b)),
        Arg::Char(c) => Some(*c as i32),
        _ => None,
    }
}

/// The two messages carry the same peers and address, and the same arguments
/// but for the first, which became the string `label`.
pub open spec fn replaced_with_str(from: LabeledMessage, to: LabeledMessage, label: Seq<char>) -> bool {
    &&& to.peer_recv == from.peer_recv
    &&& to.peer_send == from.peer_send
    &&& to.message.addr == from.message.addr
    &&& to.message.args@.len() == from.message.args@.len()
    &&& to.message.args@.skip(1) == from.message.args@.skip(1)
    &&& to.message.args@[0] is Str
    &&& to.message.args@[0]->Str_0@ == label
}

/// The two messages carry the same peers and address, and the same arguments
/// but for the first, which became the integer `code`.
pub open spec fn replaced_with_int(from: LabeledMessage, to: LabeledMessage, code: i32) -> bool {
    &&& to.peer_recv == from.peer_recv
    &&& to.peer_send == from.peer_send
    &&& to.message.addr == from.message.addr
    &&& to.message.args@.len() == from.message.args@.len()
    &&& to.message.args@.skip(1) == from.message.args@.skip(1)
    &&& to.message.args@[0] == Arg::Int(code)
}

/// What translating `labeled` through `table` yields: without arguments the
/// translation fails; toward the controller the first argument's numeric key
/// becomes the table's label; toward the instrument a string first argument
/// becomes the table's code; a message whose first argument has no table
/// entry, or is of a variant the direction does not read, passes through
/// unchanged.
pub open spec fn lookup_post(
    labeled: LabeledMessage,
    table: LookupTable,
    r: Result<LabeledMessage, TranslationError>,
) -> bool {
    &&& labeled.message.args@.len() == 0 ==> (r matches Err(e) && e is MissingArgument)
    &&& labeled.message.args@.len() > 0 && labeled.peer_send.kind is Controller ==> match r {
        Ok(out) => match spec_arg_key(labeled.message.args@[0]) {
            Some(k) => match table.spec_lookup(k) {
                Some(label) => replaced_with_str(labeled, out, label),
                None => out == labeled,
            },
            None => out == labeled,
        },
        Err(_) => false,
    }
    &&& labeled.message.args@.len() > 0 && labeled.peer_send.kind is Instrument ==> match r {
        Ok(out) => match labeled.message.args@[0] {
            Arg::Str(s) => match table.spec_reverse(s@) {
                Some(code) => replaced_with_int(labeled, out, code),
                None => out == labeled,
            },
            _ => out == labeled,
        },
        Err(_) => false,
    }
}

/// Translates the first argument through the table, by the destination
/// peer's role, exactly as `lookup_post` states.
pub fn lookup(labeled: LabeledMessage, table: &LookupTable) -> (r: Result<
    LabeledMessage,
    TranslationError,
>)
    ensures
        lookup_post(labeled, *table, r),
{
    let mut labeled = labeled;
    if labeled.message.args.len() == 0 {
        return Err(TranslationError::MissingArgument(
            "translator expects a first argument".to_owned(),
        ));
    }
    let controller_bound = matches!(labeled.peer_send.kind, crate::peer::PeerKind::Controller);
    if controller_bound {
        let key = match arg_key(&labeled.message.args[0]) {
            Some(k) => k,
            None => {
                return Ok(labeled);
            },
        };
        match table.get(key) {
            Some(label) => {
                let ghost before = labeled;
                labeled.message.args[0] = Arg::Str(label);
                assert(labeled.message.args@.skip(1) =~= before.message.args@.skip(1));
                Ok(labeled)
            },
            None => Ok(labeled),
        }
    } else {
        let code = match &labeled.message.args[0] {
            Arg::Str(s) => {
                match reverse_lookup(s, table) {
                    Some(code) => code,
                    None => {
                        return Ok(labeled);
                    },
                }
            },
            _ => {
                return Ok(labeled);
            },
        };
        let ghost before = labeled;
        labeled.message.args[0] = Arg::Int(code);
        assert(labeled.message.args@.skip(1) =~= before.message.args@.skip(1));
        Ok(labeled)
    }
}

} // verus!
