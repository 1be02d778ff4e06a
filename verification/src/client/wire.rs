//! Wire-format building blocks: canonical string renderings of the plain
//! values that requests carry, and a key/value parameter map with
//! overwrite-on-insert semantics whose mathematical view is a map from keys
//! to values.

use vstd::prelude::*;
use vstd::string::*;

verus! {

/// Character-wise equality of two string slices.
pub fn str_eq(a: &str, b: &str) -> (r: bool)
    ensures
        r == (a@ == b@),
{
    let a_len = a.unicode_len();
    let b_len = b.unicode_len();
    if a_len != b_len {
        return false;
    }
    let mut i: usize = 0;
    while i < a_len
        invariant
            i <= a_len,
            a_len == a@.len(),
            a@.len() == b@.len(),
            forall|j: int| 0 <= j < i ==> a@[j] == b@[j],
        decreases a_len - i,
    {
        if a.get_char(i) != b.get_char(i) {
            return false;
        }
        i += 1;
    }
    proof {
        assert(a@ =~= b@);
    }
    true
}

/// The decimal digit character for a value below ten.
pub open spec fn dec_digit(d: nat) -> char {
    if d == 0 {
        '0'
    } else if d == 1 {
        '1'
    } else if d == 2 {
        '2'
    } else if d == 3 {
        '3'
    } else if d == 4 {
        '4'
    } else if d == 5 {
        '5'
    } else if d == 6 {
        '6'
    } else if d == 7 {
        '7'
    } else if d == 8 {
        '8'
    } else {
        '9'
    }
}

/// The canonical decimal rendering of a natural number: no leading zeros,
/// a single `0` for zero itself.
pub open spec fn dec_str(n: nat) -> Seq<char>
    decreases n,
{
    if n < 10 {
        seq![dec_digit(n)]
    } else {
        dec_str(n / 10).push(dec_digit(n % 10))
    }
}

fn dec_digit_str(d: u64) -> (s: &'static str)
    requires
        d < 10,
    ensures
        s@ == seq![dec_digit(d as nat)],
{
    let r: &'static str = if d == 0 {
        "0"
    } else if d == 1 {
        "1"
    } else if d == 2 {
        "2"
    } else if d == 3 {
        "3"
    } else if d == 4 {
        "4"
    } else if d == 5 {
        "5"
    } else if d == 6 {
        "6"
    } else if d == 7 {
        "7"
    } else if d == 8 {
        "8"
    } else {
        "9"
    };
    proof {
        reveal_strlit("0");
        reveal_strlit("1");
        reveal_strlit("2");
        reveal_strlit("3");
        reveal_strlit("4");
        reveal_strlit("5");
        reveal_strlit("6");
        reveal_strlit("7");
        reveal_strlit("8");
        reveal_strlit("9");
        assert(r@ =~= seq![dec_digit(d as nat)]);
    }
    r
}

/// Render a value as its canonical decimal string.
pub fn u64_to_dec_string(n: u64) -> (s: String)
    ensures
        s@ == dec_str(n as nat),
    decreases n,
{
    if n < 10 {
        dec_digit_str(n).to_owned()
    } else {
        let prefix = u64_to_dec_string(n / 10);
        let ghost prefix_view = prefix@;
        let s = prefix.concat(dec_digit_str(n % 10));
        proof {
            assert(s@ =~= prefix_view.push(dec_digit((n % 10) as nat)));
        }
        s
    }
}

/// The canonical rendering of a boolean.
pub open spec fn spec_bool_str(b: bool) -> Seq<char> {
    if b {
        "true"@
    } else {
        "false"@
    }
}

/// Render a boolean as its canonical string.
pub fn bool_to_string(b: bool) -> (s: String)
    ensures
        s@ == spec_bool_str(b),
{
    if b {
        "true".to_owned()
    } else {
        "false".to_owned()
    }
}

/// The canonical rendering of a temperature given in tenths of a degree:
/// the whole degrees, then `.` and the tenths digit only when that digit is
/// not zero.
pub open spec fn tenths_str(t: nat) -> Seq<char> {
    if t % 10 == 0 {
        dec_str(t / 10)
    } else {
        dec_str(t / 10) + "."@ + seq![dec_digit(t % 10)]
    }
}

/// Render a temperature given in tenths of a degree.
pub fn tenths_to_string(t: u64) -> (s: String)
    ensures
        s@ == tenths_str(t as nat),
{
    let whole = u64_to_dec_string(t / 10);
    if t % 10 == 0 {
        whole
    } else {
        let ghost whole_view = whole@;
        let s = whole.concat(".").concat(dec_digit_str(t % 10));
        proof {
            assert(s@ =~= whole_view + "."@ + seq![dec_digit((t % 10) as nat)]);
        }
        s
    }
}

/// A mapping of wire-parameter keys to rendered values, holding at most one
/// entry per key. Its view is the mathematical map from keys to values.
pub struct ParamMap {
    pub(crate) pairs: Vec<(String, String)>,
}

/// No two entries of the sequence share a key.
spec fn keys_distinct(s: Seq<(String, String)>) -> bool {
    forall|i: int, j: int| 0 <= i < j < s.len() ==> s[i].0@ != s[j].0@
}

/// The map denoted by a sequence of key/value entries, later entries
/// overriding earlier ones.
spec fn map_of(s: Seq<(String, String)>) -> Map<Seq<char>, Seq<char>>
    decreases s.len(),
{
    if s.len() == 0 {
        Map::empty()
    } else {
        map_of(s.drop_last()).insert(s.last().0@, s.last().1@)
    }
}

impl View for ParamMap {
    type V = Map<Seq<char>, Seq<char>>;

    closed spec fn view(&self) -> Map<Seq<char>, Seq<char>> {
        map_of(self.pairs@)
    }
}

proof fn lemma_distinct_drop_last(s: Seq<(String, String)>)
    requires
        keys_distinct(s),
        s.len() > 0,
    ensures
        keys_distinct(s.drop_last()),
{
    assert forall|i: int, j: int|
        0 <= i < j < s.drop_last().len() implies s.drop_last()[i].0@ != s.drop_last()[j].0@ by {
        assert(s.drop_last()[i] == s[i]);
        assert(s.drop_last()[j] == s[j]);
    }
}

proof fn lemma_distinct_remove(s: Seq<(String, String)>, i: int)
    requires
        keys_distinct(s),
        0 <= i < s.len(),
    ensures
        keys_distinct(s.remove(i)),
        forall|j: int| 0 <= j < s.remove(i).len() ==> s.remove(i)[j].0@ != s[i].0@,
{
    s.remove_ensures(i);
    assert forall|a: int, b: int|
        0 <= a < b < s.remove(i).len() implies s.remove(i)[a].0@ != s.remove(i)[b].0@ by {
        if a < i {
            assert(s.remove(i)[a] == s[a]);
        } else {
            assert(s.remove(i)[a] == s[a + 1]);
        }
        if b < i {
            assert(s.remove(i)[b] == s[b]);
        } else {
            assert(s.remove(i)[b] == s[b + 1]);
        }
    }
    assert forall|j: int| 0 <= j < s.remove(i).len() implies s.remove(i)[j].0@ != s[i].0@ by {
        if j < i {
            assert(s.remove(i)[j] == s[j]);
        } else {
            assert(s.remove(i)[j] == s[j + 1]);
        }
    }
}

proof fn lemma_map_of_contains(s: Seq<(String, String)>, k: Seq<char>)
    ensures
        map_of(s).contains_key(k) <==> exists|i: int| 0 <= i < s.len() && s[i].0@ == k,
    decreases s.len(),
{
    if s.len() == 0 {
    } else {
        lemma_map_of_contains(s.drop_last(), k);
        if s.last().0@ == k {
            assert(s[s.len() - 1].0@ == k);
        } else {
            if map_of(s).contains_key(k) {
                let i = choose|i: int| 0 <= i < s.drop_last().len() && s.drop_last()[i].0@ == k;
                assert(s[i].0@ == k);
            }
            if exists|i: int| 0 <= i < s.len() && s[i].0@ == k {
                let i = choose|i: int| 0 <= i < s.len() && s[i].0@ == k;
                assert(i < s.len() - 1);
                assert(s.drop_last()[i].0@ == k);
            }
        }
    }
}

proof fn lemma_map_of_get(s: Seq<(String, String)>, i: int)
    requires
        keys_distinct(s),
        0 <= i < s.len(),
    ensures
        map_of(s).contains_key(s[i].0@),
        map_of(s)[s[i].0@] == s[i].1@,
    decreases s.len(),
{
    if i == s.len() - 1 {
    } else {
        lemma_distinct_drop_last(s);
        lemma_map_of_get(s.drop_last(), i);
        assert(s.drop_last()[i] == s[i]);
        assert(s.last().0@ != s[i].0@);
    }
}

proof fn lemma_map_of_remove(s: Seq<(String, String)>, i: int)
    requires
        keys_distinct(s),
        0 <= i < s.len(),
    ensures
        map_of(s.remove(i)) == map_of(s).remove(s[i].0@),
    decreases s.len(),
{
    let k = s[i].0@;
    s.remove_ensures(i);
    if i == s.len() - 1 {
        assert(s.remove(i) =~= s.drop_last());
        lemma_map_of_contains(s.drop_last(), k);
        assert forall|j: int| 0 <= j < s.drop_last().len() implies s.drop_last()[j].0@ != k by {
            assert(s.drop_last()[j] == s[j]);
        }
        assert(!map_of(s.drop_last()).contains_key(k));
        assert(map_of(s.drop_last()).insert(k, s[i].1@).remove(k) =~= map_of(s.drop_last()));
        assert(map_of(s) == map_of(s.drop_last()).insert(k, s.last().1@));
    } else {
        let t = s.drop_last();
        lemma_distinct_drop_last(s);
        t.remove_ensures(i);
        lemma_map_of_remove(t, i);
        assert(s.remove(i).drop_last() =~= t.remove(i));
        assert(s.remove(i).last() == s.last());
        assert(s.remove(i).len() > 0);
        assert(map_of(s.remove(i)) == map_of(t.remove(i)).insert(s.last().0@, s.last().1@));
        assert(s.last().0@ != k);
        assert(map_of(t).remove(k).insert(s.last().0@, s.last().1@) =~= map_of(t).insert(
            s.last().0@,
            s.last().1@,
        ).remove(k));
    }
}

proof fn lemma_map_of_dom_len(s: Seq<(String, String)>)
    requires
        keys_distinct(s),
    ensures
        map_of(s).dom().finite(),
        map_of(s).dom().len() == s.len(),
    decreases s.len(),
{
    if s.len() == 0 {
        assert(map_of(s).dom() =~= Set::<Seq<char>>::empty());
    } else {
        lemma_distinct_drop_last(s);
        lemma_map_of_dom_len(s.drop_last());
        lemma_map_of_contains(s.drop_last(), s.last().0@);
        assert forall|j: int|
            0 <= j < s.drop_last().len() implies s.drop_last()[j].0@ != s.last().0@ by {
            assert(s.drop_last()[j] == s[j]);
        }
        assert(!map_of(s.drop_last()).contains_key(s.last().0@));
        assert(map_of(s).dom() =~= map_of(s.drop_last()).dom().insert(s.last().0@));
    }
}

impl ParamMap {
    /// The map holds at most one entry per key.
    pub closed spec fn wf(&self) -> bool {
        keys_distinct(self.pairs@)
    }

    /// How many keys the map holds.
    pub fn len(&self) -> (r: usize)
        requires
            self.wf(),
        ensures
            r == self@.dom().len(),
    {
        proof {
            lemma_map_of_dom_len(self.pairs@);
        }
        self.pairs.len()
    }

    /// An empty parameter map.
    pub fn new() -> (r: ParamMap)
        ensures
            r@ == Map::<Seq<char>, Seq<char>>::empty(),
            r.wf(),
    {
        ParamMap { pairs: Vec::new() }
    }

    fn find_key(pairs: &Vec<(String, String)>, key: &str) -> (r: Option<usize>)
        ensures
            match r {
                Some(i) => i < pairs@.len() && pairs@[i as int].0@ == key@,
                None => forall|j: int| 0 <= j < pairs@.len() ==> pairs@[j].0@ != key@,
            },
    {
        let mut i: usize = 0;
        while i < pairs.len()
            invariant
                i <= pairs@.len(),
                forall|j: int| 0 <= j < i ==> pairs@[j].0@ != key@,
            decreases pairs@.len() - i,
        {
            if str_eq(pairs[i].0.as_str(), key) {
                return Some(i);
            }
            i += 1;
        }
        None
    }

    /// Insert a key/value entry, replacing any entry already held under that
    /// key.
    pub fn insert(&mut self, key: &str, value: String)
        requires
            old(self).wf(),
        ensures
            final(self).wf(),
            final(self)@ == old(self)@.insert(key@, value@),
    {
        let ghost s0 = self.pairs@;
        match Self::find_key(&self.pairs, key) {
            Some(i) => {
                proof {
                    lemma_map_of_remove(s0, i as int);
                    lemma_distinct_remove(s0, i as int);
                }
                self.pairs.remove(i);
            },
            None => {},
        }
        let ghost s1 = self.pairs@;
        self.pairs.push((key.to_owned(), value));
        proof {
            assert(self.pairs@.drop_last() =~= s1);
            assert(map_of(self.pairs@) == map_of(s1).insert(key@, value@));
            assert(map_of(s1).insert(key@, value@) =~= map_of(s0).insert(key@, value@));
            assert forall|a: int, b: int|
                0 <= a < b < self.pairs@.len() implies self.pairs@[a].0@ != self.pairs@[b].0@ by {
                if b < self.pairs@.len() - 1 {
                    assert(self.pairs@[a] == s1[a]);
                    assert(self.pairs@[b] == s1[b]);
                } else {
                    assert(self.pairs@[a] == s1[a]);
                    assert(self.pairs@[b].0@ == key@);
                    assert(s1[a].0@ != key@);
                }
            }
        }
    }

    /// Look up the value held under a key.
    pub fn get(&self, key: &str) -> (r: Option<&String>)
        requires
            self.wf(),
        ensures
            match r {
                Some(v) => self@.contains_key(key@) && v@ == self@[key@],
                None => !self@.contains_key(key@),
            },
    {
        match Self::find_key(&self.pairs, key) {
            Some(i) => {
                proof {
                    lemma_map_of_get(self.pairs@, i as int);
                }
                Some(&self.pairs[i].1)
            },
            None => {
                proof {
                    lemma_map_of_contains(self.pairs@, key@);
                }
                None
            },
        }
    }
}

} // verus!
