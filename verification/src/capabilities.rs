//! Capability names and their resolution from a comma-separated list.
//!
//! A capability is a named host feature a contract may require. The set of
//! available capabilities is given either as a comma-separated string, taken
//! from a decoded chain configuration, or falls back to a fixed baseline.
//! Parsing splits on commas, trims surrounding whitespace from each token
//! and drops empty tokens; duplicates and ordering do not matter.

use vstd::prelude::*;

verus! {

/// Whitespace that is trimmed from the ends of a capability token: the
/// Unicode `White_Space` characters, the set `char::is_whitespace` accepts.
pub open spec fn is_space_char(c: char) -> bool {
    c == ' ' || c == '\t' || c == '\n' || c == '\u{b}' || c == '\u{c}' || c == '\r'
        || c == '\u{85}' || c == '\u{a0}' || c == '\u{1680}' || c == '\u{2000}' || c == '\u{2001}'
        || c == '\u{2002}' || c == '\u{2003}' || c == '\u{2004}' || c == '\u{2005}'
        || c == '\u{2006}' || c == '\u{2007}' || c == '\u{2008}' || c == '\u{2009}'
        || c == '\u{200a}' || c == '\u{2028}' || c == '\u{2029}' || c == '\u{202f}'
        || c == '\u{205f}' || c == '\u{3000}'
}

/// The sequence with leading whitespace removed.
pub open spec fn trim_front(s: Seq<char>) -> Seq<char>
    decreases s.len(),
{
    if s.len() > 0 && is_space_char(s[0]) {
        trim_front(s.drop_first())
    } else {
        s
    }
}

/// The sequence with trailing whitespace removed.
pub open spec fn trim_back(s: Seq<char>) -> Seq<char>
    decreases s.len(),
{
    if s.len() > 0 && is_space_char(s.last()) {
        trim_back(s.drop_last())
    } else {
        s
    }
}

/// The sequence with whitespace removed from both ends.
pub open spec fn trim_spec(s: Seq<char>) -> Seq<char> {
    trim_back(trim_front(s))
}

/// The fields of `s` between commas, in order. An input without commas is
/// one field; every comma separates two (possibly empty) fields.
pub open spec fn split_commas(s: Seq<char>) -> Seq<Seq<char>>
    decreases s.len(),
{
    if s.len() == 0 {
        seq![Seq::<char>::empty()]
    } else if s.last() == ',' {
        split_commas(s.drop_last()).push(Seq::<char>::empty())
    } else {
        let rest = split_commas(s.drop_last());
        rest.update(rest.len() - 1, rest.last().push(s.last()))
    }
}

/// The set of distinct capability names in a sequence of raw fields: each
/// field trimmed, empty fields dropped.
pub open spec fn token_set(fields: Seq<Seq<char>>) -> Set<Seq<char>> {
    fields.map_values(|t: Seq<char>| trim_spec(t)).to_set().remove(Seq::<char>::empty())
}

/// The set of distinct capability names in a comma-separated string.
pub open spec fn csv_capability_set(s: Seq<char>) -> Set<Seq<char>> {
    token_set(split_commas(s))
}

/// The baseline capability set assumed when neither a capability list nor a
/// chain configuration is given: the basic feature set plus the versioned
/// extension capabilities.
pub open spec fn default_capability_set() -> Set<Seq<char>> {
    set![
        "iterator"@,
        "staking"@,
        "stargate"@,
        "cosmwasm_1_1"@,
        "cosmwasm_1_2"@,
        "cosmwasm_1_3"@,
        "cosmwasm_1_4"@,
        "cosmwasm_2_0"@,
        "cosmwasm_2_1"@,
    ]
}

/// Splitting never yields zero fields.
pub proof fn lemma_split_commas_nonempty(s: Seq<char>)
    ensures
        split_commas(s).len() >= 1,
    decreases s.len(),
{
    if s.len() > 0 {
        lemma_split_commas_nonempty(s.drop_last());
    }
}

/// Dropping whitespace from every position of a sequence leaves nothing.
proof fn lemma_trim_front_skip(s: Seq<char>, a: int)
    requires
        0 <= a <= s.len(),
        forall|j: int| 0 <= j < a ==> is_space_char(s[j]),
        a < s.len() ==> !is_space_char(s[a]),
    ensures
        trim_front(s) == s.skip(a),
    decreases a,
{
    if a == 0 {
        assert(s.skip(0) =~= s);
    } else {
        let d = s.drop_first();
        assert(forall|j: int| 0 <= j < a - 1 ==> is_space_char(#[trigger] d[j]));
        lemma_trim_front_skip(d, a - 1);
        assert(d.skip(a - 1) =~= s.skip(a));
    }
}

proof fn lemma_trim_back_take(s: Seq<char>, b: int)
    requires
        0 <= b <= s.len(),
        forall|j: int| b <= j < s.len() ==> is_space_char(s[j]),
        b > 0 ==> !is_space_char(s[b - 1]),
    ensures
        trim_back(s) == s.take(b),
    decreases s.len(),
{
    if b == s.len() {
        assert(s.take(b) =~= s);
    } else {
        let d = s.drop_last();
        lemma_trim_back_take(d, b);
        assert(d.take(b) =~= s.take(b));
    }
}

/// Adding one raw field to a list of fields adds its trimmed name to the
/// resolved set, unless the field is all whitespace.
proof fn lemma_token_set_push(toks: Seq<Seq<char>>, t: Seq<char>)
    ensures
        trim_spec(t).len() == 0 ==> token_set(toks.push(t)) == token_set(toks),
        trim_spec(t).len() > 0 ==> token_set(toks.push(t)) == token_set(toks).insert(
            trim_spec(t),
        ),
{
    let f = |x: Seq<char>| trim_spec(x);
    assert(toks.push(t).map_values(f) =~= toks.map_values(f).push(f(t)));
    toks.map_values(f).lemma_push_to_set_commute(f(t));
    if trim_spec(t).len() == 0 {
        assert(trim_spec(t) =~= Seq::<char>::empty());
        assert(token_set(toks.push(t)) =~= token_set(toks));
    } else {
        assert(token_set(toks.push(t)) =~= token_set(toks).insert(trim_spec(t)));
    }
}

/// Whether `c` is trimmed from the ends of a capability token.
fn is_space(c: char) -> (r: bool)
    ensures
        r == is_space_char(c),
{
    c == ' ' || c == '\t' || c == '\n' || c == '\u{b}' || c == '\u{c}' || c == '\r'
        || c == '\u{85}' || c == '\u{a0}' || c == '\u{1680}' || c == '\u{2000}' || c == '\u{2001}'
        || c == '\u{2002}' || c == '\u{2003}' || c == '\u{2004}' || c == '\u{2005}'
        || c == '\u{2006}' || c == '\u{2007}' || c == '\u{2008}' || c == '\u{2009}'
        || c == '\u{200a}' || c == '\u{2028}' || c == '\u{2029}' || c == '\u{202f}'
        || c == '\u{205f}' || c == '\u{3000}'
}

/// Remove leading and trailing whitespace from a string.
pub fn trim_str(s: &str) -> (r: String)
    ensures
        r@ == trim_spec(s@),
{
    let n = s.unicode_len();
    let mut a: usize = 0;
    while a < n && is_space(s.get_char(a))
        invariant
            0 <= a <= n,
            n == s@.len(),
            forall|j: int| 0 <= j < a ==> is_space_char(s@[j]),
        decreases n - a,
    {
        a += 1;
    }
    proof {
        lemma_trim_front_skip(s@, a as int);
    }
    if a == n {
        proof {
            assert(s@.skip(a as int) =~= Seq::<char>::empty());
        }
        String::new()
    } else {
        let mut b: usize = n;
        while b > a && is_space(s.get_char(b - 1))
            invariant
                a < b <= n,
                n == s@.len(),
                !is_space_char(s@[a as int]),
                forall|j: int| b <= j < n ==> is_space_char(s@[j]),
            decreases b,
        {
            b -= 1;
        }
        let t = s.substring_char(a, b);
        proof {
            let sk = s@.skip(a as int);
            assert(forall|j: int|
                b - a <= j < sk.len() ==> is_space_char(#[trigger] sk[j]));
            lemma_trim_back_take(sk, b as int - a as int);
            assert(sk.take(b as int - a as int) =~= s@.subrange(a as int, b as int));
        }
        t.to_owned()
    }
}

/// An immutable set of distinct capability names.
pub struct CapabilitySet {
    names: Vec<String>,
}

impl View for CapabilitySet {
    type V = Set<Seq<char>>;

    closed spec fn view(&self) -> Set<Seq<char>> {
        self.names.deep_view().to_set()
    }
}

impl CapabilitySet {
    /// The stored names hold no duplicates, so the vector length is the
    /// cardinality of the set.
    pub closed spec fn wf(self) -> bool {
        self.names.deep_view().no_duplicates()
    }

    /// The empty capability set.
    pub fn new() -> (r: CapabilitySet)
        ensures
            r.wf(),
            r@ == Set::<Seq<char>>::empty(),
    {
        let r = CapabilitySet { names: Vec::new() };
        proof {
            assert(r.names.deep_view() =~= Seq::<Seq<char>>::empty());
            assert(r@ =~= Set::<Seq<char>>::empty());
        }
        r
    }

    /// Whether `name` is one of the available capabilities.
    pub fn contains(&self, name: &str) -> (r: bool)
        ensures
            r == self@.contains(name@),
    {
        let owned = name.to_owned();
        let n = self.names.len();
        let mut i: usize = 0;
        while i < n
            invariant
                owned@ == name@,
                0 <= i <= n,
                n == self.names.len(),
                forall|j: int| 0 <= j < i ==> self.names.deep_view()[j] != name@,
            decreases n - i,
        {
            assert(self.names.deep_view()[i as int] == self.names@[i as int]@);
            if self.names[i].eq(&owned) {
                assert(self.names.deep_view().contains(name@));
                return true;
            }
            i += 1;
        }
        assert(!self.names.deep_view().contains(name@));
        false
    }

    /// Add a capability name; a name already present is not stored twice.
    pub fn insert(&mut self, name: String)
        requires
            old(self).wf(),
        ensures
            final(self).wf(),
            final(self)@ == old(self)@.insert(name@),
    {
        if !self.contains(name.as_str()) {
            let ghost before = self.names.deep_view();
            self.names.push(name);
            proof {
                assert(self.names.deep_view() =~= before.push(name@));
                assert(self.names.deep_view().drop_last() =~= before);
                before.lemma_push_to_set_commute(name@);
                assert(self@ =~= old(self)@.insert(name@));
            }
        } else {
            proof {
                assert(self@ =~= old(self)@.insert(name@));
            }
        }
    }

    /// How many distinct capabilities are available.
    pub fn len(&self) -> (r: usize)
        requires
            self.wf(),
        ensures
            r == self@.len(),
    {
        proof {
            self.names.deep_view().unique_seq_to_set();
        }
        self.names.len()
    }

    /// Collect a list of names into a capability set.
    pub fn from_names(names: &Vec<String>) -> (r: CapabilitySet)
        ensures
            r.wf(),
            r@ == names.deep_view().to_set(),
    {
        let mut r = CapabilitySet::new();
        let n = names.len();
        let mut i: usize = 0;
        proof {
            assert(names.deep_view().take(0) =~= Seq::<Seq<char>>::empty());
            assert(r@ =~= names.deep_view().take(0).to_set());
        }
        while i < n
            invariant
                r.wf(),
                0 <= i <= n,
                n == names.len(),
                r@ == names.deep_view().take(i as int).to_set(),
            decreases n - i,
        {
            proof {
                assert(names.deep_view().take(i as int + 1) =~= names.deep_view().take(
                    i as int,
                ).push(names.deep_view()[i as int]));
                names.deep_view().take(i as int).lemma_push_to_set_commute(
                    names.deep_view()[i as int],
                );
                assert(names.deep_view()[i as int] == names@[i as int]@);
            }
            r.insert(names[i].clone());
            i += 1;
        }
        proof {
            assert(names.deep_view().take(n as int) =~= names.deep_view());
        }
        r
    }

    /// The stored names, one for each element of the set, without duplicates.
    pub fn as_names(&self) -> (r: &Vec<String>)
        ensures
            r.deep_view().to_set() == self@,
            r.deep_view().no_duplicates() == self.wf(),
    {
        &self.names
    }
}

/// Resolve a comma-separated capability list: split on commas, trim each
/// field, drop empty fields, and collect the distinct names.
pub fn capabilities_from_csv(csv: &str) -> (r: CapabilitySet)
    ensures
        r.wf(),
        r@ == csv_capability_set(csv@),
{
    let n = csv.unicode_len();
    let mut set = CapabilitySet::new();
    let mut start: usize = 0;
    let mut i: usize = 0;
    let ghost mut done: Seq<Seq<char>> = Seq::empty();
    proof {
        assert(split_commas(csv@.take(0)) =~~= done.push(csv@.subrange(0, 0)));
        assert(done.map_values(|t: Seq<char>| trim_spec(t)) =~= Seq::<Seq<char>>::empty());
        assert(token_set(done) =~= Set::<Seq<char>>::empty());
    }
    while i < n
        invariant
            set.wf(),
            0 <= start <= i <= n,
            n == csv@.len(),
            split_commas(csv@.take(i as int)) == done.push(
                csv@.subrange(start as int, i as int),
            ),
            set@ == token_set(done),
        decreases n - i,
    {
        let c = csv.get_char(i);
        proof {
            assert(csv@.take(i as int + 1).drop_last() =~= csv@.take(i as int));
            assert(csv@.take(i as int + 1).last() == csv@[i as int]);
        }
        if c == ',' {
            let tok = csv.substring_char(start, i);
            let trimmed = trim_str(tok);
            if !trimmed.as_str().is_empty() {
                set.insert(trimmed);
            }
            proof {
                lemma_token_set_push(done, csv@.subrange(start as int, i as int));
                done = done.push(csv@.subrange(start as int, i as int));
                assert(split_commas(csv@.take(i as int + 1)) =~~= done.push(
                    csv@.subrange(i as int + 1, i as int + 1),
                ));
            }
            start = i + 1;
        } else {
            proof {
                let prev = split_commas(csv@.take(i as int));
                lemma_split_commas_nonempty(csv@.take(i as int));
                assert(prev.last() == csv@.subrange(start as int, i as int));
                assert(csv@.subrange(start as int, i as int).push(csv@[i as int]) =~= csv@
                    .subrange(start as int, i as int + 1));
                assert(split_commas(csv@.take(i as int + 1)) =~~= done.push(
                    csv@.subrange(start as int, i as int + 1),
                ));
            }
        }
        i += 1;
    }
    let tok = csv.substring_char(start, n);
    let trimmed = trim_str(tok);
    if !trimmed.as_str().is_empty() {
        set.insert(trimmed);
    }
    proof {
        assert(csv@.take(n as int) =~= csv@);
        lemma_token_set_push(done, csv@.subrange(start as int, n as int));
    }
    set
}

/// The baseline capability set used when no capability list and no chain
/// configuration is given.
pub fn default_capabilities() -> (r: CapabilitySet)
    ensures
        r.wf(),
        r@ == default_capability_set(),
{
    let mut set = CapabilitySet::new();
    set.insert("iterator".to_owned());
    set.insert("staking".to_owned());
    set.insert("stargate".to_owned());
    set.insert("cosmwasm_1_1".to_owned());
    set.insert("cosmwasm_1_2".to_owned());
    set.insert("cosmwasm_1_3".to_owned());
    set.insert("cosmwasm_1_4".to_owned());
    set.insert("cosmwasm_2_0".to_owned());
    set.insert("cosmwasm_2_1".to_owned());
    proof {
        assert(set@ =~= default_capability_set());
    }
    set
}

/// Splitting a string around a comma splits it field by field: the fields
/// of `a ++ "," ++ b` are the fields of `a` followed by the fields of `b`.
pub proof fn lemma_split_concat(a: Seq<char>, b: Seq<char>)
    ensures
        split_commas(a + seq![','] + b) == split_commas(a) + split_commas(b),
    decreases b.len(),
{
    if b.len() == 0 {
        assert(a + seq![','] + b =~= a.push(','));
        assert((a + seq![','] + b).drop_last() =~= a);
        assert(split_commas(a.push(',')) == split_commas(a).push(Seq::<char>::empty()));
        assert(split_commas(a).push(Seq::<char>::empty()) =~= split_commas(a) + split_commas(b));
    } else {
        let s = a + seq![','] + b;
        let bd = b.drop_last();
        assert(s.drop_last() =~= a + seq![','] + bd);
        assert(s.last() == b.last());
        lemma_split_concat(a, bd);
        lemma_split_commas_nonempty(bd);
        let q = split_commas(a) + split_commas(bd);
        if b.last() == ',' {
            assert(split_commas(s) == q.push(Seq::<char>::empty()));
            assert(q.push(Seq::<char>::empty()) =~= split_commas(a) + split_commas(bd).push(
                Seq::<char>::empty(),
            ));
        } else {
            let r = split_commas(bd);
            assert(q.last() == r.last());
            assert(split_commas(s) == q.update(q.len() - 1, q.last().push(b.last())));
            assert(split_commas(b) == r.update(r.len() - 1, r.last().push(b.last())));
            assert(q.update(q.len() - 1, q.last().push(b.last())) =~= split_commas(a) + r.update(
                r.len() - 1,
                r.last().push(b.last()),
            ));
        }
    }
}

/// The names of two field lists laid end to end are the union of their names.
proof fn lemma_token_set_concat(q1: Seq<Seq<char>>, q2: Seq<Seq<char>>)
    ensures
        token_set(q1 + q2) == token_set(q1).union(token_set(q2)),
{
    let f = |x: Seq<char>| trim_spec(x);
    assert((q1 + q2).map_values(f) =~= q1.map_values(f) + q2.map_values(f));
    vstd::seq_lib::seq_to_set_distributes_over_add(q1.map_values(f), q2.map_values(f));
    assert(token_set(q1 + q2) =~= token_set(q1).union(token_set(q2)));
}

/// Capability resolution does not depend on the order or grouping of the
/// comma-separated fields: the names of `a ++ "," ++ b` are the union of the
/// names of `a` and the names of `b`. Together with the commutativity and
/// idempotence of set union this makes the resolved set insensitive to
/// reordered or duplicated fields.
pub proof fn lemma_csv_concat(a: Seq<char>, b: Seq<char>)
    ensures
        csv_capability_set(a + seq![','] + b) == csv_capability_set(a).union(
            csv_capability_set(b),
        ),
{
    lemma_split_concat(a, b);
    lemma_token_set_concat(split_commas(a), split_commas(b));
}

/// Reordering the fields of a capability list does not change the resolved
/// set: the two halves around a comma may swap places.
pub proof fn lemma_csv_swap(a: Seq<char>, b: Seq<char>)
    ensures
        csv_capability_set(a + seq![','] + b) == csv_capability_set(b + seq![','] + a),
{
    lemma_csv_concat(a, b);
    lemma_csv_concat(b, a);
    assert(csv_capability_set(a).union(csv_capability_set(b)) =~= csv_capability_set(b).union(
        csv_capability_set(a),
    ));
}

/// Repeating a whole capability list does not change the resolved set.
pub proof fn lemma_csv_duplicate(s: Seq<char>)
    ensures
        csv_capability_set(s + seq![','] + s) == csv_capability_set(s),
{
    lemma_csv_concat(s, s);
    assert(csv_capability_set(s).union(csv_capability_set(s)) =~= csv_capability_set(s));
}

} // verus!
