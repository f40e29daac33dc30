use vstd::prelude::*;

use crate::text::{
    chars_eq, chars_of, chars_start_with, normalize_name, normalized, push_chars, push_str,
    starts_with, trim_dashes, trim_leading_dashes, views,
};

verus! {


/// The key under which a `--flag` token is stored.
pub open spec fn flag_key(flag: Seq<char>) -> Seq<char> {
    normalized(trim_dashes(flag))
}

/// Flags read from `--name value` token pairs, added to `acc`; a later pair with the same
/// key replaces an earlier one.
pub open spec fn flags_from(tokens: Seq<Seq<char>>, acc: Map<Seq<char>, Seq<char>>) -> Result<
    Map<Seq<char>, Seq<char>>,
    Seq<char>,
>
    decreases tokens.len(),
{
    if tokens.len() == 0 {
        Ok(acc)
    } else if !starts_with(tokens[0], "--"@) {
        Err("expected flag, got '"@ + tokens[0] + "'"@)
    } else if tokens.len() < 2 || starts_with(tokens[1], "--"@) {
        Err("missing value for --"@ + flag_key(tokens[0]))
    } else {
        flags_from(tokens.skip(2), acc.insert(flag_key(tokens[0]), tokens[1]))
    }
}

/// The value stored under the normalized `name`, and the flags without it.
pub open spec fn spec_required(flags: Map<Seq<char>, Seq<char>>, name: Seq<char>) -> Result<
    (Seq<char>, Map<Seq<char>, Seq<char>>),
    Seq<char>,
> {
    let key = normalized(name);
    if flags.contains_key(key) {
        Ok((flags[key], flags.remove(key)))
    } else {
        Err("missing --"@ + name)
    }
}

/// Strict lexicographic order of char sequences (by code point, as `String` orders).
pub open spec fn lex_lt(a: Seq<char>, b: Seq<char>) -> bool
    decreases a.len(),
{
    if a.len() == 0 {
        b.len() > 0
    } else if b.len() == 0 {
        false
    } else if a[0] != b[0] {
        a[0] < b[0]
    } else {
        lex_lt(a.drop_first(), b.drop_first())
    }
}

pub proof fn lemma_lex_irreflexive(a: Seq<char>)
    ensures
        !lex_lt(a, a),
    decreases a.len(),
{
    if a.len() > 0 {
        lemma_lex_irreflexive(a.drop_first());
    }
}

pub proof fn lemma_lex_transitive(a: Seq<char>, b: Seq<char>, c: Seq<char>)
    requires
        lex_lt(a, b),
        lex_lt(b, c),
    ensures
        lex_lt(a, c),
    decreases a.len(),
{
    if a.len() > 0 && b.len() > 0 && c.len() > 0 {
        if a[0] == b[0] && b[0] == c[0] {
            lemma_lex_transitive(a.drop_first(), b.drop_first(), c.drop_first());
        }
    }
}

pub proof fn lemma_lex_total(a: Seq<char>, b: Seq<char>)
    requires
        a != b,
    ensures
        lex_lt(a, b) || lex_lt(b, a),
    decreases a.len(),
{
    if a.len() > 0 && b.len() > 0 && a[0] == b[0] {
        if a.drop_first() == b.drop_first() {
            assert(a =~= seq![a[0]] + a.drop_first());
            assert(b =~= seq![b[0]] + b.drop_first());
        }
        lemma_lex_total(a.drop_first(), b.drop_first());
    } else if a.len() == 0 && b.len() == 0 {
        assert(a =~= b);
    }
}

pub proof fn lemma_lex_asymmetric(a: Seq<char>, b: Seq<char>)
    requires
        lex_lt(a, b),
    ensures
        !lex_lt(b, a),
{
    if lex_lt(b, a) {
        lemma_lex_transitive(a, b, a);
        lemma_lex_irreflexive(a);
    }
}

/// Strictly increasing in lexicographic order.
pub open spec fn strictly_sorted(s: Seq<Seq<char>>) -> bool {
    forall|i: int, j: int| 0 <= i < j < s.len() ==> lex_lt(#[trigger] s[i], #[trigger] s[j])
}

/// The members of `keys` in increasing order.
pub open spec fn sorted_of(keys: Set<Seq<char>>) -> Seq<Seq<char>> {
    choose|s: Seq<Seq<char>>| strictly_sorted(s) && s.to_set() == keys
}

/// The keys of `flags` in increasing order.
pub open spec fn sorted_keys(flags: Map<Seq<char>, Seq<char>>) -> Seq<Seq<char>> {
    sorted_of(flags.dom())
}

/// Two strictly sorted sequences with the same elements are the same sequence.
pub proof fn lemma_sorted_unique(s: Seq<Seq<char>>, t: Seq<Seq<char>>)
    requires
        strictly_sorted(s),
        strictly_sorted(t),
        s.to_set() == t.to_set(),
    ensures
        s == t,
    decreases s.len(),
{
    if s.len() == 0 {
        if t.len() > 0 {
            assert(t.to_set().contains(t[0]));
        }
        assert(s =~= t);
    } else {
        assert(s.to_set().contains(s[0]));
        assert(t.len() > 0);
        assert(t.to_set().contains(t[0]));
        let i = choose|i: int| 0 <= i < t.len() && t[i] == s[0];
        let j = choose|j: int| 0 <= j < s.len() && s[j] == t[0];
        if i > 0 && j > 0 {
            assert(lex_lt(t[0], t[i]));
            assert(lex_lt(s[0], s[j]));
            lemma_lex_asymmetric(s[0], t[0]);
        } else if i > 0 {
            assert(lex_lt(t[0], t[i]));
            lemma_lex_irreflexive(s[0]);
        } else if j > 0 {
            assert(lex_lt(s[0], s[j]));
            lemma_lex_irreflexive(t[0]);
        }
        assert(s[0] == t[0]);
        let s1 = s.drop_first();
        let t1 = t.drop_first();
        assert forall|x: Seq<char>| s1.to_set().contains(x) implies t1.to_set().contains(x) by {
            let k = choose|k: int| 0 <= k < s1.len() && s1[k] == x;
            assert(s.to_set().contains(x));
            let m = choose|m: int| 0 <= m < t.len() && t[m] == x;
            if m == 0 {
                assert(lex_lt(s[0], s[k + 1]));
                lemma_lex_irreflexive(x);
            }
            assert(t1[m - 1] == x);
        }
        assert forall|x: Seq<char>| t1.to_set().contains(x) implies s1.to_set().contains(x) by {
            let k = choose|k: int| 0 <= k < t1.len() && t1[k] == x;
            assert(t.to_set().contains(x));
            let m = choose|m: int| 0 <= m < s.len() && s[m] == x;
            if m == 0 {
                assert(lex_lt(t[0], t[k + 1]));
                lemma_lex_irreflexive(x);
            }
            assert(s1[m - 1] == x);
        }
        assert(s1.to_set() =~= t1.to_set());
        lemma_sorted_unique(s1, t1);
        assert(s =~= seq![s[0]] + s1);
        assert(t =~= seq![t[0]] + t1);
    }
}

/// The items joined with `sep` between neighbours.
pub open spec fn join(items: Seq<Seq<char>>, sep: Seq<char>) -> Seq<char>
    decreases items.len(),
{
    if items.len() == 0 {
        Seq::empty()
    } else if items.len() == 1 {
        items[0]
    } else {
        join(items.drop_last(), sep) + sep + items.last()
    }
}

/// Message for flags that no field of the command used.
pub open spec fn unused_text(flags: Map<Seq<char>, Seq<char>>) -> Seq<char> {
    "unused flag(s): "@ + join(sorted_keys(flags), ", "@)
}

/// What is left of the flags once a request is built: nothing, or an error naming them.
pub open spec fn spec_finish(flags: Map<Seq<char>, Seq<char>>, bytes: Seq<u8>) -> Result<
    Seq<u8>,
    Seq<char>,
> {
    if flags.dom().len() == 0 {
        Ok(bytes)
    } else {
        Err(unused_text(flags))
    }
}

fn lex_less(a: &[char], b: &[char]) -> (less: bool)
    ensures
        less == lex_lt(a@, b@),
{
    let mut i: usize = 0;
    assert(a@.skip(0) =~= a@);
    assert(b@.skip(0) =~= b@);
    while i < a.len() && i < b.len()
        invariant
            i <= a@.len(),
            i <= b@.len(),
            lex_lt(a@, b@) == lex_lt(a@.skip(i as int), b@.skip(i as int)),
        decreases a@.len() - i,
    {
        assert(a@.skip(i as int)[0] == a@[i as int]);
        assert(b@.skip(i as int)[0] == b@[i as int]);
        if a[i] != b[i] {
            return a[i] < b[i];
        }
        assert(a@.skip(i as int).drop_first() =~= a@.skip(i + 1));
        assert(b@.skip(i as int).drop_first() =~= b@.skip(i + 1));
        i = i + 1;
    }
    i == a.len() && i < b.len()
}

/// The `--name value` flags of a command line, keyed by normalized name.
pub struct Args {
    keys: Vec<Vec<char>>,
    values: Vec<Vec<char>>,
    flags: Ghost<Map<Seq<char>, Seq<char>>>,
}

impl Args {
    pub closed spec fn view(&self) -> Map<Seq<char>, Seq<char>> {
        self.flags@
    }

    /// Each key is stored once, next to its value.
    pub closed spec fn wf(&self) -> bool {
        &&& self.keys@.len() == self.values@.len()
        &&& forall|i: int|
            0 <= i < self.keys@.len() ==> #[trigger] self.flags@.contains_key(self.keys@[i]@)
                && self.flags@[self.keys@[i]@] == self.values@[i]@
        &&& forall|k: Seq<char>|
            #[trigger] self.flags@.contains_key(k) ==> exists|i: int|
                0 <= i < self.keys@.len() && self.keys@[i]@ == k
        &&& forall|i: int, j: int|
            0 <= i < j < self.keys@.len() ==> (#[trigger] self.keys@[i])@ != (#[trigger] self.keys@[j])@
    }

    /// Reads `--name value` pairs from the tokens.
    pub fn new(tokens: &[Vec<char>]) -> (r: Result<Args, Vec<char>>)
        ensures
            match r {
                Ok(args) => args.wf() && flags_from(views(tokens@), Map::empty()) == Ok::<
                    Map<Seq<char>, Seq<char>>,
                    Seq<char>,
                >(args.view()),
                Err(e) => flags_from(views(tokens@), Map::empty()) == Err::<
                    Map<Seq<char>, Seq<char>>,
                    Seq<char>,
                >(e@),
            },
    {
        proof {
            reveal_strlit("--");
        }
        let mut args = Args::empty();
        let mut index: usize = 0;
        let ghost all = views(tokens@);
        assert(all.skip(0) =~= all);
        while index < tokens.len()
            invariant
                args.wf(),
                index <= tokens@.len(),
                all == views(tokens@),
                flags_from(all, Map::empty()) == flags_from(all.skip(index as int), args.view()),
            decreases tokens@.len() - index,
        {
            let ghost rest = all.skip(index as int);
            assert(rest[0] == tokens@[index as int]@);
            let flag = &tokens[index];
            if !chars_start_with(flag.as_slice(), "--") {
                let mut e = Vec::new();
                push_str(&mut e, "expected flag, got '");
                push_chars(&mut e, flag.as_slice());
                push_str(&mut e, "'");
                return Err(e);
            }
            let key = normalize_name(trim_leading_dashes(flag.as_slice()).as_slice());
            index = index + 1;
            if index >= tokens.len() || chars_start_with(tokens[index].as_slice(), "--") {
                proof {
                    if index < tokens@.len() {
                        assert(rest[1] == tokens@[index as int]@);
                    }
                }
                let mut e = Vec::new();
                push_str(&mut e, "missing value for --");
                push_chars(&mut e, key.as_slice());
                return Err(e);
            }
            assert(rest[1] == tokens@[index as int]@);
            assert(rest.skip(2) =~= all.skip(index + 1));
            args.insert(key, tokens[index].clone());
            index = index + 1;
        }
        assert(all.skip(index as int).len() == 0);
        Ok(args)
    }

    fn empty() -> (args: Args)
        ensures
            args.wf(),
            args.view() == Map::<Seq<char>, Seq<char>>::empty(),
    {
        Args { keys: Vec::new(), values: Vec::new(), flags: Ghost(Map::empty()) }
    }

    fn find(&self, key: &[char]) -> (found: Option<usize>)
        requires
            self.wf(),
        ensures
            found matches Some(i) ==> i < self.keys@.len() && self.keys@[i as int]@ == key@,
            found is None ==> !self.view().contains_key(key@),
    {
        let mut i: usize = 0;
        while i < self.keys.len()
            invariant
                self.wf(),
                i <= self.keys@.len(),
                forall|j: int| 0 <= j < i ==> self.keys@[j]@ != key@,
            decreases self.keys@.len() - i,
        {
            if chars_eq(self.keys[i].as_slice(), key) {
                return Some(i);
            }
            i = i + 1;
        }
        None
    }

    fn insert(&mut self, key: Vec<char>, value: Vec<char>)
        requires
            old(self).wf(),
        ensures
            final(self).wf(),
            final(self).view() == old(self).view().insert(key@, value@),
    {
        let ghost new_flags = self.flags@.insert(key@, value@);
        match self.find(key.as_slice()) {
            Some(i) => {
                self.values.set(i, value);
                self.flags = Ghost(new_flags);
                assert forall|j: int| 0 <= j < self.keys@.len() implies #[trigger] self.flags@.contains_key(
                    self.keys@[j]@,
                ) && self.flags@[self.keys@[j]@] == self.values@[j]@ by {
                    if j != i {
                        assert((old(self).keys@[j])@ != (old(self).keys@[i as int])@);
                        assert(old(self).flags@.contains_key(old(self).keys@[j]@));
                    }
                }
                assert forall|k: Seq<char>| #[trigger] self.flags@.contains_key(k) implies exists|j: int|
                    0 <= j < self.keys@.len() && self.keys@[j]@ == k by {
                    if k != self.keys@[i as int]@ {
                        assert(old(self).flags@.contains_key(k));
                    }
                }
            },
            None => {
                let ghost old_keys = self.keys@;
                self.keys.push(key);
                self.values.push(value);
                self.flags = Ghost(new_flags);
                assert forall|j: int| 0 <= j < old_keys.len() implies old_keys[j]@ != key@ by {
                    assert(old(self).flags@.contains_key(old(self).keys@[j]@));
                }
                assert forall|j: int| 0 <= j < self.keys@.len() implies #[trigger] self.flags@.contains_key(
                    self.keys@[j]@,
                ) && self.flags@[self.keys@[j]@] == self.values@[j]@ by {
                    if j < old_keys.len() {
                        assert(self.keys@[j] == old(self).keys@[j]);
                        assert(self.values@[j] == old(self).values@[j]);
                        assert(old(self).flags@.contains_key(old(self).keys@[j]@));
                    }
                }
                assert forall|a: int, b: int| 0 <= a < b < self.keys@.len() implies (
                #[trigger] self.keys@[a])@ != (#[trigger] self.keys@[b])@ by {
                    if b < old_keys.len() {
                        assert(self.keys@[a] == old(self).keys@[a]);
                        assert(self.keys@[b] == old(self).keys@[b]);
                    } else {
                        assert(self.keys@[a] == old_keys[a]);
                    }
                }
                assert forall|k: Seq<char>| #[trigger] self.flags@.contains_key(k) implies exists|j: int|
                    0 <= j < self.keys@.len() && self.keys@[j]@ == k by {
                    if k != self.keys@[old_keys.len() as int]@ {
                        assert(old(self).flags@.contains_key(k));
                        let j = choose|j: int| 0 <= j < old_keys.len() && old_keys[j]@ == k;
                        assert(self.keys@[j] == old_keys[j]);
                    }
                }
            },
        }
    }

    /// Takes the value stored under the normalized `name` out of the flags.
    pub fn required(&mut self, name: &str) -> (r: Result<Vec<char>, Vec<char>>)
        requires
            old(self).wf(),
        ensures
            final(self).wf(),
            match r {
                Ok(v) => spec_required(old(self).view(), name@) == Ok::<
                    (Seq<char>, Map<Seq<char>, Seq<char>>),
                    Seq<char>,
                >((v@, final(self).view())),
                Err(e) => spec_required(old(self).view(), name@) == Err::<
                    (Seq<char>, Map<Seq<char>, Seq<char>>),
                    Seq<char>,
                >(e@) && final(self).view() == old(self).view(),
            },
    {
        let name_chars = chars_of(name);
        let key = normalize_name(name_chars.as_slice());
        match self.find(key.as_slice()) {
            Some(i) => {
                let ghost old_keys = self.keys@;
                let ghost old_values = self.values@;
                let ghost new_flags = self.flags@.remove(key@);
                self.keys.remove(i);
                let value = self.values.remove(i);
                self.flags = Ghost(new_flags);
                assert forall|j: int| 0 <= j < self.keys@.len() implies #[trigger] self.flags@.contains_key(
                    self.keys@[j]@,
                ) && self.flags@[self.keys@[j]@] == self.values@[j]@ by {
                    if j < i {
                        assert(self.keys@[j] == old(self).keys@[j]);
                        assert(self.values@[j] == old(self).values@[j]);
                        assert((old(self).keys@[j])@ != (old(self).keys@[i as int])@);
                        assert(old(self).flags@.contains_key(old(self).keys@[j]@));
                    } else {
                        assert(self.keys@[j] == old(self).keys@[j + 1]);
                        assert(self.values@[j] == old(self).values@[j + 1]);
                        assert((old(self).keys@[i as int])@ != (old(self).keys@[j + 1])@);
                        assert(old(self).flags@.contains_key(old(self).keys@[j + 1]@));
                    }
                }
                assert forall|k: Seq<char>| #[trigger] self.flags@.contains_key(k) implies exists|j: int|
                    0 <= j < self.keys@.len() && self.keys@[j]@ == k by {
                    assert(old(self).flags@.contains_key(k));
                    let j = choose|j: int| 0 <= j < old_keys.len() && old_keys[j]@ == k;
                    if j < i {
                        assert(self.keys@[j] == old_keys[j]);
                    } else {
                        assert(j != i);
                        assert(self.keys@[j - 1] == old_keys[j]);
                    }
                }
                assert forall|a: int, b: int| 0 <= a < b < self.keys@.len() implies (
                #[trigger] self.keys@[a])@ != (#[trigger] self.keys@[b])@ by {
                    let a1 = if a < i { a } else { a + 1 };
                    let b1 = if b < i { b } else { b + 1 };
                    assert(self.keys@[a] == old_keys[a1]);
                    assert(self.keys@[b] == old_keys[b1]);
                }
                Ok(value)
            },
            None => {
                let mut e = Vec::new();
                push_str(&mut e, "missing --");
                push_chars(&mut e, name_chars.as_slice());
                Err(e)
            },
        }
    }

    /// Whether no flag is left.
    pub fn is_empty(&self) -> (empty: bool)
        requires
            self.wf(),
        ensures
            empty == (self.view().dom().len() == 0),
    {
        proof {
            self.lemma_dom_is_keys();
        }
        self.keys.len() == 0
    }

    proof fn lemma_dom_is_keys(&self)
        requires
            self.wf(),
        ensures
            self.view().dom() == views(self.keys@).to_set(),
            self.view().dom().finite(),
            views(self.keys@).no_duplicates(),
            self.view().dom().len() == self.keys@.len(),
    {
        let ks = views(self.keys@);
        assert forall|k: Seq<char>| self.view().dom().contains(k) implies ks.to_set().contains(k) by {
            let j = choose|j: int| 0 <= j < self.keys@.len() && self.keys@[j]@ == k;
            assert(ks[j] == k);
        }
        assert forall|k: Seq<char>| ks.to_set().contains(k) implies self.view().dom().contains(k) by {
            let j = choose|j: int| 0 <= j < ks.len() && ks[j] == k;
            assert(self.flags@.contains_key(self.keys@[j]@));
        }
        assert(self.view().dom() =~= ks.to_set());
        assert forall|a: int, b: int| 0 <= a < ks.len() && 0 <= b < ks.len() && a != b implies ks[a]
            != ks[b] by {
            if a < b {
                assert(self.keys@[a]@ != self.keys@[b]@);
            } else {
                assert(self.keys@[b]@ != self.keys@[a]@);
            }
        }
        ks.unique_seq_to_set();
    }

    /// Message that names every flag left, in increasing order.
    pub fn unused_message(&self) -> (text: Vec<char>)
        requires
            self.wf(),
        ensures
            text@ == unused_text(self.view()),
    {
        proof {
            self.lemma_dom_is_keys();
        }
        let mut sorted: Vec<Vec<char>> = Vec::new();
        let mut i: usize = 0;
        while i < self.keys.len()
            invariant
                self.wf(),
                i <= self.keys@.len(),
                views(self.keys@).no_duplicates(),
                strictly_sorted(views(sorted@)),
                views(sorted@).to_set() == views(self.keys@).take(i as int).to_set(),
            decreases self.keys@.len() - i,
        {
            let ghost ks = views(self.keys@);
            assert(!views(sorted@).contains(ks[i as int])) by {
                if views(sorted@).contains(ks[i as int]) {
                    assert(views(sorted@).to_set().contains(ks[i as int]));
                    let j = choose|j: int| 0 <= j < i && ks.take(i as int)[j] == ks[i as int];
                    assert(ks[j] == ks[i as int]);
                }
            }
            insert_sorted(&mut sorted, self.keys[i].clone());
            proof {
                assert(ks.take(i + 1) =~= ks.take(i as int).push(ks[i as int]));
                ks.take(i as int).lemma_push_to_set_commute(ks[i as int]);
                assert(views(sorted@).to_set() =~= ks.take(i + 1).to_set());
            }
            i = i + 1;
        }
        proof {
            assert(views(self.keys@).take(i as int) =~= views(self.keys@));
            lemma_sorted_unique(views(sorted@), sorted_keys(self.view()));
        }
        let mut text = Vec::new();
        push_str(&mut text, "unused flag(s): ");
        let mut j: usize = 0;
        while j < sorted.len()
            invariant
                j <= sorted@.len(),
                text@ == "unused flag(s): "@ + join(views(sorted@).take(j as int), ", "@),
            decreases sorted@.len() - j,
        {
            let ghost before = views(sorted@).take(j as int);
            assert(views(sorted@).take(j + 1).drop_last() =~= before);
            if j > 0 {
                push_str(&mut text, ", ");
            }
            push_chars(&mut text, sorted[j].as_slice());
            j = j + 1;
            proof {
                let now = views(sorted@).take(j as int);
                assert(now.last() == sorted@[j - 1]@);
                if j == 1 {
                    assert(join(now, ", "@) == now[0]);
                    assert(join(before, ", "@) =~= Seq::<char>::empty());
                }
                assert(text@ =~= "unused flag(s): "@ + join(now, ", "@));
            }
        }
        assert(views(sorted@).take(j as int) =~= views(sorted@));
        text
    }
}

pub fn insert_sorted(out: &mut Vec<Vec<char>>, x: Vec<char>)
    requires
        strictly_sorted(views(old(out)@)),
        !views(old(out)@).contains(x@),
    ensures
        strictly_sorted(views(final(out)@)),
        views(final(out)@).to_set() == views(old(out)@).to_set().insert(x@),
{
    let mut p: usize = 0;
    while p < out.len() && !lex_less(x.as_slice(), out[p].as_slice())
        invariant
            p <= out@.len(),
            out@ == old(out)@,
            !views(old(out)@).contains(x@),
            forall|q: int| 0 <= q < p ==> lex_lt(#[trigger] out@[q]@, x@),
        decreases out@.len() - p,
    {
        proof {
            if out@[p as int]@ == x@ {
                assert(views(old(out)@)[p as int] == x@);
                assert(views(old(out)@).contains(x@));
            }
            lemma_lex_total(x@, out@[p as int]@);
        }
        p = p + 1;
    }
    let ghost olds = views(out@);
    let ghost xv = x@;
    out.insert(p, x);
    proof {
        let news = views(out@);
        assert(news =~= olds.insert(p as int, xv));
        assert forall|a: int, b: int| 0 <= a < b < news.len() implies lex_lt(
            #[trigger] news[a],
            #[trigger] news[b],
        ) by {
            if b < p {
                assert(lex_lt(olds[a], olds[b]));
            } else if b == p {
                assert(lex_lt(out@[a]@, xv));
            } else if a > p {
                assert(lex_lt(olds[a - 1], olds[b - 1]));
            } else if a == p {
                if b - 1 > p {
                    assert(lex_lt(olds[p as int], olds[b - 1]));
                    lemma_lex_transitive(xv, olds[p as int], olds[b - 1]);
                }
            } else {
                assert(lex_lt(olds[a], xv));
                if b - 1 == p {
                } else {
                    assert(lex_lt(olds[p as int], olds[b - 1]));
                    lemma_lex_transitive(xv, olds[p as int], olds[b - 1]);
                }
                lemma_lex_transitive(olds[a], xv, olds[b - 1]);
            }
        }
        assert forall|e: Seq<char>| news.to_set().contains(e) implies olds.to_set().insert(xv).contains(e) by {
            let k = choose|k: int| 0 <= k < news.len() && news[k] == e;
            if k < p {
                assert(olds[k] == e);
            } else if k > p {
                assert(olds[k - 1] == e);
            }
        }
        assert forall|e: Seq<char>| olds.to_set().insert(xv).contains(e) implies news.to_set().contains(e) by {
            if e == xv {
                assert(news[p as int] == e);
            } else {
                let k = choose|k: int| 0 <= k < olds.len() && olds[k] == e;
                if k < p {
                    assert(news[k] == e);
                } else {
                    assert(news[k + 1] == e);
                }
            }
        }
        assert(news.to_set() =~= olds.to_set().insert(xv));
    }
}

} // verus!
