//! The set of trusted hosts and the file that holds it, one host per line.

use vstd::prelude::*;

use crate::text::{
    before, behind, chars_of, code_of, find_char, first_index, is_blank, is_space,
    law_first_character_parts, law_trim_takes_the_white_space, lemma_first_index,
    lemma_first_index_unique, string_of, text_eq, trim, trim_back, trim_front, trimmed, views,
};

verus! {

// ---------------------------------------------------------------------------
// The order of strings
// ---------------------------------------------------------------------------

/// Whether `a` comes before `b`, character by character.
pub open spec fn text_less(a: Seq<char>, b: Seq<char>) -> bool
    decreases a.len(),
{
    if b.len() == 0 {
        false
    } else if a.len() == 0 {
        true
    } else if a[0] != b[0] {
        (a[0] as int) < (b[0] as int)
    } else {
        text_less(a.drop_first(), b.drop_first())
    }
}

/// The order of strings is strict and total.
pub proof fn lemma_text_less_total(a: Seq<char>, b: Seq<char>)
    ensures
        !(text_less(a, b) && text_less(b, a)),
        a == b <==> !text_less(a, b) && !text_less(b, a),
    decreases a.len(),
{
    if a.len() > 0 && b.len() > 0 && a[0] == b[0] {
        lemma_text_less_total(a.drop_first(), b.drop_first());
        if a.drop_first() == b.drop_first() {
            assert(a =~= seq![a[0]] + a.drop_first());
            assert(b =~= seq![b[0]] + b.drop_first());
        }
    } else if a.len() == 0 && b.len() == 0 {
        assert(a =~= b);
    }
}

/// The order of strings is transitive.
pub proof fn lemma_text_less_transitive(a: Seq<char>, b: Seq<char>, c: Seq<char>)
    requires
        text_less(a, b),
        text_less(b, c),
    ensures
        text_less(a, c),
    decreases a.len(),
{
    if a.len() > 0 && a[0] == b[0] && b[0] == c[0] {
        lemma_text_less_transitive(a.drop_first(), b.drop_first(), c.drop_first());
    }
}

/// Whether `a` comes before `b`.
fn less(a: &str, b: &str) -> (r: bool)
    ensures
        r == text_less(a@, b@),
{
    let x = chars_of(a);
    let y = chars_of(b);
    let mut i: usize = 0;
    assert(x@.skip(0) =~= x@);
    assert(y@.skip(0) =~= y@);
    while i < x.len() && i < y.len() && x[i] == y[i]
        invariant
            i <= x@.len(),
            i <= y@.len(),
            x@ == a@,
            y@ == b@,
            text_less(a@, b@) == text_less(x@.skip(i as int), y@.skip(i as int)),
        decreases x.len() - i,
    {
        assert(x@.skip(i as int).drop_first() =~= x@.skip(i + 1));
        assert(y@.skip(i as int).drop_first() =~= y@.skip(i + 1));
        i = i + 1;
    }
    if i == y.len() {
        false
    } else if i == x.len() {
        true
    } else {
        code_of(x[i]) < code_of(y[i])
    }
}

/// Whether each string of `list` comes before the ones behind it.
pub open spec fn ascending(list: Seq<Seq<char>>) -> bool {
    forall|i: int, j: int| 0 <= i < j < list.len() ==> text_less(#[trigger] list[i], #[trigger] list[j])
}

/// A set of strings has one ascending list.
pub proof fn lemma_ascending_unique(a: Seq<Seq<char>>, b: Seq<Seq<char>>)
    requires
        ascending(a),
        ascending(b),
        a.to_set() == b.to_set(),
    ensures
        a == b,
    decreases a.len(),
{
    if a.len() == 0 {
        if b.len() > 0 {
            assert(b.to_set().contains(b[0]));
            assert(a.to_set().contains(b[0]));
        }
        assert(a =~= b);
    } else {
        assert(a.to_set().contains(a.last()));
        assert(b.to_set().contains(a.last()));
        assert(b.len() > 0);
        assert(b.to_set().contains(b.last()));
        assert(a.to_set().contains(b.last()));
        let i = choose|i: int| 0 <= i < a.len() && a[i] == b.last();
        let j = choose|j: int| 0 <= j < b.len() && b[j] == a.last();
        lemma_text_less_total(a.last(), b.last());
        if a.last() != b.last() {
            assert(text_less(a[i], a.last()));
            assert(text_less(b[j], b.last()));
        }
        let a1 = a.drop_last();
        let b1 = b.drop_last();
        assert(a1.to_set() =~= a.to_set().remove(a.last())) by {
            lemma_drop_last_set(a);
        }
        assert(b1.to_set() =~= b.to_set().remove(b.last())) by {
            lemma_drop_last_set(b);
        }
        lemma_ascending_unique(a1, b1);
        assert(a =~= a1.push(a.last()));
        assert(b =~= b1.push(b.last()));
    }
}

proof fn lemma_drop_last_set(a: Seq<Seq<char>>)
    requires
        a.len() > 0,
        ascending(a),
    ensures
        a.drop_last().to_set() == a.to_set().remove(a.last()),
{
    let d = a.drop_last();
    assert forall|x: Seq<char>| #[trigger]
        d.to_set().contains(x) <==> a.to_set().remove(a.last()).contains(x) by {
        if d.contains(x) {
            let i = choose|i: int| 0 <= i < d.len() && d[i] == x;
            assert(a[i] == x);
            assert(text_less(a[i], a[a.len() - 1]));
            lemma_text_less_total(a.last(), a.last());
        }
        if a.contains(x) && x != a.last() {
            let i = choose|i: int| 0 <= i < a.len() && a[i] == x;
            assert(d[i] == x);
        }
    }
    assert(d.to_set() =~= a.to_set().remove(a.last()));
}

// ---------------------------------------------------------------------------
// The set
// ---------------------------------------------------------------------------

/// A set of hosts, kept in ascending order.
#[derive(Debug)]
pub struct HostSet {
    hosts: Vec<String>,
}

impl View for HostSet {
    type V = Set<Seq<char>>;

    closed spec fn view(&self) -> Set<Seq<char>> {
        views(self.hosts@).to_set()
    }
}

impl HostSet {
    #[verifier::type_invariant]
    spec fn sorted(self) -> bool {
        ascending(views(self.hosts@))
    }

    /// The hosts in ascending order.
    pub closed spec fn order(self) -> Seq<Seq<char>> {
        views(self.hosts@)
    }

    /// The empty set.
    pub fn new() -> (r: HostSet)
        ensures
            r@ == Set::<Seq<char>>::empty(),
            r.order() == Seq::<Seq<char>>::empty(),
    {
        let r = HostSet { hosts: Vec::new() };
        assert(r.order() =~= Seq::<Seq<char>>::empty());
        assert(r@ =~= Set::<Seq<char>>::empty());
        r
    }

    /// The number of hosts. They stand in ascending order.
    pub fn len(&self) -> (r: usize)
        ensures
            r == self.order().len(),
            ascending(self.order()),
            self.order().to_set() == self@,
    {
        proof {
            use_type_invariant(self);
        }
        self.hosts.len()
    }

    /// Whether there is no host.
    pub fn is_empty(&self) -> (r: bool)
        ensures
            r == (self@ == Set::<Seq<char>>::empty()),
    {
        let r = self.hosts.len() == 0;
        proof {
            if r {
                assert(self@ =~= Set::<Seq<char>>::empty());
            } else {
                assert(views(self.hosts@)[0] == self.hosts@[0]@);
                assert(self@.contains(self.hosts@[0]@));
            }
        }
        r
    }

    /// The host at position `i` of the ascending order.
    pub fn at(&self, i: usize) -> (r: &str)
        requires
            i < self.order().len(),
        ensures
            r@ == self.order()[i as int],
    {
        self.hosts[i].as_str()
    }

    /// The number of hosts that come before `host`.
    fn rank(&self, host: &str) -> (r: usize)
        ensures
            r <= self.hosts@.len(),
            forall|j: int| 0 <= j < r ==> text_less(#[trigger] self.hosts@[j]@, host@),
            forall|j: int| r <= j < self.hosts@.len() ==> !text_less(#[trigger] self.hosts@[j]@, host@),
    {
        proof {
            use_type_invariant(self);
        }
        let mut i: usize = 0;
        while i < self.hosts.len() && less(self.hosts[i].as_str(), host)
            invariant
                i <= self.hosts@.len(),
                forall|j: int| 0 <= j < i ==> text_less(#[trigger] self.hosts@[j]@, host@),
            decreases self.hosts.len() - i,
        {
            i = i + 1;
        }
        proof {
            assert forall|j: int| i <= j < self.hosts@.len() implies !text_less(
                #[trigger] self.hosts@[j]@,
                host@,
            ) by {
                if i < j && text_less(self.hosts@[j]@, host@) {
                    assert(text_less(views(self.hosts@)[i as int], views(self.hosts@)[j]));
                    lemma_text_less_transitive(
                        self.hosts@[i as int]@,
                        self.hosts@[j]@,
                        host@,
                    );
                }
            }
        }
        i
    }

    /// Whether `host` is in the set, and its place.
    fn find(&self, host: &str) -> (r: (bool, usize))
        ensures
            r.0 == self@.contains(host@),
            r.1 <= self.hosts@.len(),
            r.0 ==> r.1 < self.hosts@.len() && self.hosts@[r.1 as int]@ == host@,
            forall|j: int| 0 <= j < r.1 ==> text_less(#[trigger] self.hosts@[j]@, host@),
            forall|j: int| r.1 <= j < self.hosts@.len() ==> !text_less(#[trigger] self.hosts@[j]@, host@),
    {
        let k = self.rank(host);
        let there = k < self.hosts.len() && text_eq(self.hosts[k].as_str(), host);
        proof {
            use_type_invariant(self);
            let v = views(self.hosts@);
            if there {
                assert(v[k as int] == host@);
            } else if v.contains(host@) {
                let j = choose|j: int| 0 <= j < v.len() && v[j] == host@;
                assert(self.hosts@[j]@ == host@);
                lemma_text_less_total(host@, host@);
                assert(j >= k);
                assert(j != k);
                assert(text_less(v[k as int], v[j]));
                assert(text_less(self.hosts@[k as int]@, host@));
            }
        }
        (there, k)
    }

    /// Whether `host` is in the set.
    pub fn contains(&self, host: &str) -> (r: bool)
        ensures
            r == self@.contains(host@),
    {
        self.find(host).0
    }

    /// Puts `host` into the set. Says whether it is new.
    pub fn insert(&mut self, host: String) -> (r: bool)
        ensures
            final(self)@ == old(self)@.insert(host@),
            r == !old(self)@.contains(host@),
    {
        let (there, k) = self.find(host.as_str());
        proof {
            use_type_invariant(&*self);
        }
        if there {
            assert(self@.insert(host@) =~= self@);
            return false;
        }
        let ghost old_hosts = self.hosts@;
        let ghost h = host@;
        let mut hosts: Vec<String> = Vec::new();
        core::mem::swap(&mut hosts, &mut self.hosts);
        hosts.insert(k, host);
        proof {
            let v = views(old_hosts);
            let w = views(hosts@);
            assert(w =~= v.insert(k as int, h));
            assert forall|i: int, j: int| 0 <= i < j < w.len() implies text_less(
                #[trigger] w[i],
                #[trigger] w[j],
            ) by {
                let i2 = if i < k {
                    i
                } else {
                    i - 1
                };
                let j2 = if j < k {
                    j
                } else {
                    j - 1
                };
                if i != k && j != k {
                    assert(text_less(v[i2], v[j2]));
                } else if j == k {
                    assert(text_less(old_hosts[i]@, h));
                } else {
                    assert(!text_less(old_hosts[j2]@, h));
                    lemma_text_less_total(old_hosts[j2]@, h);
                    if old_hosts[j2]@ == h {
                        assert(v[j2] == h);
                        assert(v.contains(h));
                    }
                }
            }
            assert forall|x: Seq<char>| #[trigger]
                w.to_set().contains(x) <==> v.to_set().insert(h).contains(x) by {
                if v.contains(x) {
                    let i = choose|i: int| 0 <= i < v.len() && v[i] == x;
                    let i2 = if i < k {
                        i
                    } else {
                        i + 1
                    };
                    assert(w[i2] == x);
                }
                if w.contains(x) {
                    let i = choose|i: int| 0 <= i < w.len() && w[i] == x;
                    if i != k {
                        let i2 = if i < k {
                            i
                        } else {
                            i - 1
                        };
                        assert(v[i2] == x);
                    }
                }
                assert(w[k as int] == h);
            }
            assert(w.to_set() =~= v.to_set().insert(h));
        }
        self.hosts = hosts;
        true
    }

    /// Takes `host` out of the set. Says whether it was there.
    pub fn remove(&mut self, host: &str) -> (r: bool)
        ensures
            final(self)@ == old(self)@.remove(host@),
            r == old(self)@.contains(host@),
    {
        let (there, k) = self.find(host);
        proof {
            use_type_invariant(&*self);
        }
        if !there {
            assert(self@.remove(host@) =~= self@);
            return false;
        }
        let ghost old_hosts = self.hosts@;
        let mut hosts: Vec<String> = Vec::new();
        core::mem::swap(&mut hosts, &mut self.hosts);
        let _gone = hosts.remove(k);
        proof {
            let v = views(old_hosts);
            let w = views(hosts@);
            assert(w =~= v.remove(k as int));
            assert(v[k as int] == host@);
            assert forall|i: int, j: int| 0 <= i < j < w.len() implies text_less(
                #[trigger] w[i],
                #[trigger] w[j],
            ) by {
                let i2 = if i < k {
                    i
                } else {
                    i + 1
                };
                let j2 = if j < k {
                    j
                } else {
                    j + 1
                };
                assert(text_less(v[i2], v[j2]));
            }
            assert forall|x: Seq<char>| #[trigger]
                w.to_set().contains(x) <==> v.to_set().remove(host@).contains(x) by {
                if w.contains(x) {
                    let i = choose|i: int| 0 <= i < w.len() && w[i] == x;
                    let i2 = if i < k {
                        i
                    } else {
                        i + 1
                    };
                    assert(v[i2] == x);
                    lemma_text_less_total(x, x);
                    if i2 < k {
                        assert(text_less(v[i2], v[k as int]));
                    } else {
                        assert(text_less(v[k as int], v[i2]));
                    }
                }
                if v.contains(x) && x != host@ {
                    let i = choose|i: int| 0 <= i < v.len() && v[i] == x;
                    let i2 = if i < k {
                        i
                    } else {
                        i - 1
                    };
                    assert(w[i2] == x);
                }
            }
            assert(w.to_set() =~= v.to_set().remove(host@));
        }
        self.hosts = hosts;
        true
    }
}

// ---------------------------------------------------------------------------
// The file
// ---------------------------------------------------------------------------

/// Whether a line of the file, without the white space around it, names a host:
/// it is not empty and no comment.
pub open spec fn names_host(line: Seq<char>) -> bool {
    line.len() > 0 && line[0] != '#'
}

/// The hosts that the lines of `text` name, from top to bottom.
pub open spec fn hosts_in(text: Seq<char>) -> Seq<Seq<char>>
    decreases text.len(),
{
    if text.len() == 0 {
        Seq::empty()
    } else {
        proof {
            lemma_first_index(text, '\n');
        }
        let line = trimmed(before(text, '\n'));
        let rest = hosts_in(behind(text, '\n'));
        if names_host(line) {
            seq![line] + rest
        } else {
            rest
        }
    }
}

/// One line for each host of `list`.
pub open spec fn lines_of(list: Seq<Seq<char>>) -> Seq<char>
    decreases list.len(),
{
    if list.len() == 0 {
        Seq::empty()
    } else {
        list[0] + seq!['\n'] + lines_of(list.drop_first())
    }
}

/// Whether `text` is the file that holds the hosts of `set`: a line for each,
/// in ascending order.
pub open spec fn is_host_file(text: Seq<char>, set: Set<Seq<char>>) -> bool {
    exists|list: Seq<Seq<char>>|
        ascending(list) && list.to_set() == set && text == #[trigger] lines_of(list)
}

/// Whether a host stands on a line of its own as it is.
pub open spec fn clean(host: Seq<char>) -> bool {
    names_host(host) && trimmed(host) == host && !host.contains('\n')
}

/// The file that holds the hosts of a set is the only one of its kind.
pub proof fn law_host_file_unique(a: Seq<char>, b: Seq<char>, set: Set<Seq<char>>)
    requires
        is_host_file(a, set),
        is_host_file(b, set),
    ensures
        a == b,
{
    let x = choose|list: Seq<Seq<char>>|
        ascending(list) && list.to_set() == set && a == #[trigger] lines_of(list);
    let y = choose|list: Seq<Seq<char>>|
        ascending(list) && list.to_set() == set && b == #[trigger] lines_of(list);
    lemma_ascending_unique(x, y);
}

proof fn lemma_hosts_of_lines(list: Seq<Seq<char>>)
    requires
        forall|i: int| 0 <= i < list.len() ==> clean(#[trigger] list[i]),
    ensures
        hosts_in(lines_of(list)) == list,
    decreases list.len(),
{
    if list.len() > 0 {
        let t = lines_of(list);
        let rest = lines_of(list.drop_first());
        let h = list[0];
        assert(clean(h));
        assert(t == h + seq!['\n'] + rest);
        assert forall|i: int| 0 <= i < h.len() implies t[i] != '\n' by {
            assert(t[i] == h[i]);
            assert(h.contains(h[i]));
        }
        assert(t[h.len() as int] == '\n');
        lemma_first_index_unique(t, '\n', h.len() as int);
        assert(before(t, '\n') =~= h);
        assert(behind(t, '\n') =~= rest);
        assert forall|i: int| 0 <= i < list.drop_first().len() implies clean(
            #[trigger] list.drop_first()[i],
        ) by {
            assert(list.drop_first()[i] == list[i + 1]);
        }
        lemma_hosts_of_lines(list.drop_first());
        assert(seq![h] + list.drop_first() =~= list);
    } else {
        assert(hosts_in(lines_of(list)) =~= list);
    }
}

/// A file that was written for a set of clean hosts names the hosts of the set.
pub proof fn law_written_hosts_are_read_back(text: Seq<char>, set: Set<Seq<char>>)
    requires
        is_host_file(text, set),
        forall|h: Seq<char>| #[trigger] set.contains(h) ==> clean(h),
    ensures
        hosts_in(text).to_set() == set,
{
    let list = choose|list: Seq<Seq<char>>|
        ascending(list) && list.to_set() == set && text == #[trigger] lines_of(list);
    assert forall|i: int| 0 <= i < list.len() implies clean(#[trigger] list[i]) by {
        assert(list.to_set().contains(list[i]));
        assert(set.contains(list[i]));
    }
    lemma_hosts_of_lines(list);
}

proof fn lemma_trim_front(s: Seq<char>)
    ensures
        trim_front(s).len() > 0 ==> !is_space(trim_front(s)[0]),
        forall|c: char| trim_front(s).contains(c) ==> s.contains(c),
        trim_front(s).len() <= s.len(),
        exists|k: int| 0 <= k <= s.len() && trim_front(s) == #[trigger] s.skip(k),
    decreases s.len(),
{
    if s.len() > 0 && is_space(s[0]) {
        let d = s.drop_first();
        lemma_trim_front(d);
        let k = choose|k: int| 0 <= k <= d.len() && trim_front(d) == #[trigger] d.skip(k);
        assert(d.skip(k) =~= s.skip(k + 1));
        assert forall|c: char| trim_front(s).contains(c) implies s.contains(c) by {
            assert(d.contains(c));
            let i = choose|i: int| 0 <= i < d.len() && d[i] == c;
            assert(s[i + 1] == c);
        }
    } else {
        assert(s.skip(0) =~= s);
    }
}

proof fn lemma_trim_back(s: Seq<char>)
    ensures
        trim_back(s).len() > 0 ==> !is_space(trim_back(s).last()) && trim_back(s)[0] == s[0],
        forall|c: char| trim_back(s).contains(c) ==> s.contains(c),
        trim_back(s).len() <= s.len(),
    decreases s.len(),
{
    if s.len() > 0 && is_space(s.last()) {
        let d = s.drop_last();
        lemma_trim_back(d);
        assert forall|c: char| trim_back(s).contains(c) implies s.contains(c) by {
            assert(d.contains(c));
            let i = choose|i: int| 0 <= i < d.len() && d[i] == c;
            assert(s[i] == c);
        }
    }
}

/// What is left of a string without the white space around it has none around it.
pub proof fn lemma_trimmed(s: Seq<char>)
    ensures
        trimmed(trimmed(s)) == trimmed(s),
        forall|c: char| trimmed(s).contains(c) ==> s.contains(c),
        trimmed(s).len() > 0 ==> !is_space(trimmed(s)[0]) && !is_space(trimmed(s).last()),
{
    lemma_trim_front(s);
    lemma_trim_back(trim_front(s));
}

/// A file names only clean hosts.
pub proof fn law_read_hosts_are_clean(text: Seq<char>)
    ensures
        forall|h: Seq<char>| #[trigger] hosts_in(text).to_set().contains(h) ==> clean(h),
    decreases text.len(),
{
    if text.len() > 0 {
        let raw = before(text, '\n');
        let line = trimmed(raw);
        lemma_first_index(text, '\n');
        lemma_trimmed(raw);
        let k = first_index(text, '\n');
        let rest_text = behind(text, '\n');
        let rest = hosts_in(rest_text);
        law_read_hosts_are_clean(rest_text);
        assert(!raw.contains('\n')) by {
            if raw.contains('\n') {
                let i = choose|i: int| 0 <= i < raw.len() && raw[i] == '\n';
                assert(text[i] == '\n');
            }
        }
        assert forall|h: Seq<char>| #[trigger] hosts_in(text).to_set().contains(h) implies clean(
            h,
        ) by {
            let all = hosts_in(text);
            let i = choose|i: int| 0 <= i < all.len() && all[i] == h;
            if names_host(line) {
                if i == 0 {
                    assert(h == line);
                } else {
                    assert(rest[i - 1] == h);
                    assert(rest.to_set().contains(h));
                }
            } else {
                assert(rest.to_set().contains(h));
            }
        }
    }
}

/// Reads the hosts of a file.
pub fn parse_hosts(text: &str) -> (r: HostSet)
    ensures
        r@ == hosts_in(text@).to_set(),
{
    let chars = chars_of(text);
    let mut set = HostSet::new();
    let mut i: usize = 0;
    assert(chars@.skip(0) =~= text@);
    assert(set@.union(hosts_in(text@).to_set()) =~= hosts_in(text@).to_set());
    while i < chars.len()
        invariant
            i <= chars@.len(),
            chars@ == text@,
            set@.union(hosts_in(chars@.skip(i as int)).to_set()) == hosts_in(text@).to_set(),
        decreases chars.len() - i,
    {
        let ghost rest = chars@.skip(i as int);
        let ghost before_set = set@;
        let end = find_char(&chars, i, '\n');
        let line = trim(string_of(&chars, i, end).as_str());
        assert(chars@.subrange(i as int, end as int) =~= before(rest, '\n'));
        let next: usize = if end < chars.len() {
            end + 1
        } else {
            end
        };
        let cs = chars_of(line.as_str());
        let ghost l = line@;
        proof {
            assert(chars@.skip(next as int) =~= behind(rest, '\n'));
        }
        let ghost tail = hosts_in(chars@.skip(next as int));
        assert(hosts_in(rest) == (if names_host(l) {
            seq![l] + tail
        } else {
            tail
        }));
        if cs.len() > 0 && cs[0] != '#' {
            let _new = set.insert(line);
            proof {
                lemma_prepended_set(l, tail);
                assert(set@.union(tail.to_set()) =~= before_set.union(
                    hosts_in(rest).to_set(),
                ));
            }
        }
        i = next;
    }
    assert(chars@.skip(i as int) =~= Seq::<char>::empty());
    assert(set@ =~= set@.union(hosts_in(chars@.skip(i as int)).to_set()));
    set
}

proof fn lemma_prepended_set(l: Seq<char>, tail: Seq<Seq<char>>)
    ensures
        (seq![l] + tail).to_set() == tail.to_set().insert(l),
{
    let all = seq![l] + tail;
    assert forall|x: Seq<char>| #[trigger]
        all.to_set().contains(x) <==> tail.to_set().insert(l).contains(x) by {
        if tail.contains(x) {
            let i = choose|i: int| 0 <= i < tail.len() && tail[i] == x;
            assert(all[i + 1] == x);
        }
        if all.contains(x) {
            let i = choose|i: int| 0 <= i < all.len() && all[i] == x;
            if i > 0 {
                assert(tail[i - 1] == x);
            }
        }
        assert(all[0] == l);
    }
    assert(all.to_set() =~= tail.to_set().insert(l));
}

/// Writes the file that holds the hosts of `set`.
pub fn format_hosts(set: &HostSet) -> (r: String)
    ensures
        is_host_file(r@, set@),
{
    let n = set.len();
    let ghost order = set.order();
    let mut out = String::new();
    let mut i: usize = 0;
    assert(order.skip(0) =~= order);
    assert(out@ + lines_of(order) =~= lines_of(order));
    while i < n
        invariant
            i <= n,
            n == order.len(),
            order == set.order(),
            out@ + lines_of(order.skip(i as int)) == lines_of(order),
        decreases n - i,
    {
        let host = set.at(i);
        let ghost was = out@;
        out.append(host);
        out.push('\n');
        proof {
            let rest = order.skip(i as int);
            assert(rest.drop_first() =~= order.skip(i + 1));
            assert(lines_of(rest) == rest[0] + seq!['\n'] + lines_of(rest.drop_first()));
            assert(out@ + lines_of(order.skip(i + 1)) =~= was + lines_of(rest));
        }
        i = i + 1;
    }
    assert(order.skip(i as int) =~= Seq::<Seq<char>>::empty());
    assert(out@ =~= out@ + lines_of(order.skip(i as int)));
    out
}

// ---------------------------------------------------------------------------
// What a file says
// ---------------------------------------------------------------------------

proof fn lemma_hosts_of_parts(a: Seq<char>, line: Seq<char>, b: Seq<char>)
    requires
        a.len() == 0 || a.last() == '\n',
        !line.contains('\n'),
    ensures
        hosts_in(a + (line + seq!['\n'] + b)) == hosts_in(a) + (if names_host(trimmed(line)) {
            seq![trimmed(line)]
        } else {
            Seq::empty()
        }) + hosts_in(b),
    decreases a.len(),
{
    let tail = line + seq!['\n'] + b;
    let all = a + tail;
    if a.len() == 0 {
        assert(all =~= tail);
        law_first_character_parts(line, '\n', b);
        assert(tail.len() > 0);
        assert(hosts_in(a) =~= Seq::<Seq<char>>::empty());
    } else {
        lemma_first_index(a, '\n');
        let k = first_index(a, '\n');
        assert(a.contains('\n')) by {
            assert(a[a.len() - 1] == '\n');
        }
        let head = a.take(k);
        let rest = a.skip(k + 1);
        assert(!head.contains('\n')) by {
            if head.contains('\n') {
                let i = choose|i: int| 0 <= i < head.len() && head[i] == '\n';
                assert(a[i] == '\n');
            }
        }
        assert(a =~= head + seq!['\n'] + rest);
        assert(all =~= head + seq!['\n'] + (rest + tail));
        law_first_character_parts(head, '\n', rest);
        law_first_character_parts(head, '\n', rest + tail);
        if rest.len() > 0 {
            assert(rest.last() == a.last());
        }
        lemma_hosts_of_parts(rest, line, b);
    }
    assert(hosts_in(all) =~= hosts_in(a) + (if names_host(trimmed(line)) {
        seq![trimmed(line)]
    } else {
        Seq::empty()
    }) + hosts_in(b));
}

/// A line names its host, with or without white space around it, and the lines before
/// and behind it name theirs.
pub proof fn law_line_names_its_host(
    a: Seq<char>,
    front: Seq<char>,
    host: Seq<char>,
    back: Seq<char>,
    b: Seq<char>,
)
    requires
        a.len() == 0 || a.last() == '\n',
        is_blank(front) && !front.contains('\n'),
        is_blank(back) && !back.contains('\n'),
        host.len() > 0 && host[0] != '#' && !host.contains('\n'),
        !is_space(host[0]) && !is_space(host.last()),
    ensures
        hosts_in(a + ((front + host + back) + seq!['\n'] + b)) == hosts_in(a) + seq![host]
            + hosts_in(b),
{
    let line = front + host + back;
    law_trim_takes_the_white_space(front, host, back);
    assert(!line.contains('\n')) by {
        if line.contains('\n') {
            let i = choose|i: int| 0 <= i < line.len() && line[i] == '\n';
            if i < front.len() {
                assert(front[i] == '\n');
            } else if i < front.len() + host.len() {
                assert(host[i - front.len()] == '\n');
            } else {
                assert(back[i - front.len() - host.len()] == '\n');
            }
        }
    }
    lemma_hosts_of_parts(a, line, b);
}

/// A comment and a line of white space name no host.
pub proof fn law_comment_names_no_host(
    a: Seq<char>,
    front: Seq<char>,
    comment: Seq<char>,
    b: Seq<char>,
)
    requires
        a.len() == 0 || a.last() == '\n',
        is_blank(front) && !front.contains('\n'),
        comment.len() > 0 ==> comment[0] == '#' && !is_space(comment.last()),
        !comment.contains('\n'),
    ensures
        hosts_in(a + ((front + comment) + seq!['\n'] + b)) == hosts_in(a) + hosts_in(b),
{
    let line = front + comment;
    let none = Seq::<char>::empty();
    assert(line + none =~= front + comment + none);
    assert(line =~= line + none);
    law_trim_takes_the_white_space(front, comment, none);
    assert(trimmed(line) == comment);
    assert(!line.contains('\n')) by {
        if line.contains('\n') {
            let i = choose|i: int| 0 <= i < line.len() && line[i] == '\n';
            if i < front.len() {
                assert(front[i] == '\n');
            } else {
                assert(comment[i - front.len()] == '\n');
            }
        }
    }
    lemma_hosts_of_parts(a, line, b);
    assert(hosts_in(a) + Seq::<Seq<char>>::empty() =~= hosts_in(a));
}

/// Texts are ordered by the first character in which they differ, and a text comes
/// before those that it begins.
pub proof fn law_order_is_by_the_first_difference(
    p: Seq<char>,
    x: char,
    a: Seq<char>,
    y: char,
    b: Seq<char>,
)
    requires
        x != y,
    ensures
        text_less(p + seq![x] + a, p + seq![y] + b) <==> (x as int) < (y as int),
        text_less(p, p + seq![y] + b),
        !text_less(p + seq![y] + b, p),
    decreases p.len(),
{
    let s = p + seq![x] + a;
    let t = p + seq![y] + b;
    if p.len() > 0 {
        let q = p.drop_first();
        law_order_is_by_the_first_difference(q, x, a, y, b);
        assert(s.drop_first() =~= q + seq![x] + a);
        assert(t.drop_first() =~= q + seq![y] + b);
        assert(s[0] == p[0] && t[0] == p[0]);
    } else {
        assert(s[0] == x && t[0] == y);
    }
}

/// The file that is written for a set has a line for each host of the set and nothing
/// else, in ascending order.
pub proof fn law_host_file_has_a_line_for_each(text: Seq<char>, set: Set<Seq<char>>)
    requires
        is_host_file(text, set),
    ensures
        exists|list: Seq<Seq<char>>| #[trigger]
            lines_of(list) == text && list.to_set() == set && forall|i: int, j: int|
                0 <= i < j < list.len() ==> text_less(#[trigger] list[i], #[trigger] list[j]),
        forall|host: Seq<char>, rest: Seq<Seq<char>>| #[trigger]
            lines_of(seq![host] + rest) == host + seq!['\n'] + lines_of(rest),
        lines_of(Seq::empty()).len() == 0,
{
    let list = choose|list: Seq<Seq<char>>|
        ascending(list) && list.to_set() == set && text == #[trigger] lines_of(list);
    assert(lines_of(list) == text);
    assert forall|host: Seq<char>, rest: Seq<Seq<char>>| #[trigger]
        lines_of(seq![host] + rest) == host + seq!['\n'] + lines_of(rest) by {
        assert((seq![host] + rest).drop_first() =~= rest);
    }
}

} // verus!
