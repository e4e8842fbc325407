use vstd::prelude::*;

verus! {

/// The line that carries one header to the engine: the key, a colon, the
/// value, with nothing in between.
pub open spec fn header_line(key: Seq<char>, value: Seq<char>) -> Seq<char> {
    key + seq![':'] + value
}

/// Whether some entry has the key.
pub open spec fn has_key(entries: Seq<(Seq<char>, Seq<char>)>, key: Seq<char>) -> bool {
    exists|i: int| 0 <= i < entries.len() && (#[trigger] entries[i]).0 == key
}

/// Whether `place` is where the key stands first among the entries.
pub open spec fn is_first_place(entries: Seq<(Seq<char>, Seq<char>)>, key: Seq<char>, place: int) -> bool {
    &&& 0 <= place < entries.len()
    &&& entries[place].0 == key
    &&& forall|j: int| 0 <= j < place ==> (#[trigger] entries[j]).0 != key
}

/// The place where the key stands first, if it stands anywhere.
pub open spec fn place_of(entries: Seq<(Seq<char>, Seq<char>)>, key: Seq<char>) -> int {
    choose|place: int| is_first_place(entries, key, place)
}

/// No key occurs in two entries.
pub open spec fn unique_keys(entries: Seq<(Seq<char>, Seq<char>)>) -> bool {
    forall|i: int, j: int|
        0 <= i < entries.len() && 0 <= j < entries.len() && (#[trigger] entries[i]).0 == (
        #[trigger] entries[j]).0 ==> i == j
}

/// The keys of the entries, in their order.
pub open spec fn keys_of(entries: Seq<(Seq<char>, Seq<char>)>) -> Seq<Seq<char>> {
    Seq::new(entries.len(), |i: int| entries[i].0)
}

/// How many entries have the key.
pub open spec fn count_key(entries: Seq<(Seq<char>, Seq<char>)>, key: Seq<char>) -> nat
    decreases entries.len(),
{
    if entries.len() == 0 {
        0
    } else {
        count_key(entries.drop_last(), key) + if entries.last().0 == key {
            1nat
        } else {
            0nat
        }
    }
}

/// The mapping that the entries stand for: each key with the value of the
/// entry where it stands first.
pub open spec fn to_map(entries: Seq<(Seq<char>, Seq<char>)>) -> Map<Seq<char>, Seq<char>> {
    Map::new(|key: Seq<char>| has_key(entries, key), |key: Seq<char>| entries[place_of(entries, key)].1)
}

/// The entries after one write: the value of the entry that has the key is
/// replaced where it stands, a new key goes to the end.
pub open spec fn put(entries: Seq<(Seq<char>, Seq<char>)>, key: Seq<char>, value: Seq<char>) -> Seq<
    (Seq<char>, Seq<char>),
> {
    if has_key(entries, key) {
        entries.update(place_of(entries, key), (key, value))
    } else {
        entries.push((key, value))
    }
}

/// The header lines of the entries, one for each entry, in their order.
pub open spec fn lines_of(entries: Seq<(Seq<char>, Seq<char>)>) -> Seq<Seq<char>> {
    Seq::new(entries.len(), |i: int| header_line(entries[i].0, entries[i].1))
}

/// The texts of a sequence of strings.
pub open spec fn texts(strings: Seq<String>) -> Seq<Seq<char>> {
    Seq::new(strings.len(), |i: int| strings[i]@)
}

/// A key that some entry has, has a first place, and `place_of` gives it.
pub proof fn lemma_first_place(entries: Seq<(Seq<char>, Seq<char>)>, key: Seq<char>)
    requires
        has_key(entries, key),
    ensures
        is_first_place(entries, key, place_of(entries, key)),
{
    let witness = choose|i: int| 0 <= i < entries.len() && (#[trigger] entries[i]).0 == key;
    lemma_first_place_before(entries, key, witness);
}

/// A key that stands at `place` has a first place.
proof fn lemma_first_place_before(entries: Seq<(Seq<char>, Seq<char>)>, key: Seq<char>, place: int)
    requires
        0 <= place < entries.len(),
        entries[place].0 == key,
    ensures
        is_first_place(entries, key, place_of(entries, key)),
    decreases place,
{
    if exists|j: int| 0 <= j < place && (#[trigger] entries[j]).0 == key {
        let earlier = choose|j: int| 0 <= j < place && (#[trigger] entries[j]).0 == key;
        lemma_first_place_before(entries, key, earlier);
    } else {
        assert(is_first_place(entries, key, place));
    }
}

/// The first place of a key is the only one that `place_of` can give; where
/// the keys are unique, any place of a key is its first.
pub proof fn lemma_place_of(entries: Seq<(Seq<char>, Seq<char>)>, key: Seq<char>, place: int)
    requires
        0 <= place < entries.len(),
        entries[place].0 == key,
        unique_keys(entries) || is_first_place(entries, key, place),
    ensures
        has_key(entries, key),
        place_of(entries, key) == place,
{
    lemma_first_place(entries, key);
}

/// One write acts on the mapping as an insertion, keeps the keys unique
/// where they were, and adds an entry exactly for a new key.
pub proof fn lemma_put(entries: Seq<(Seq<char>, Seq<char>)>, key: Seq<char>, value: Seq<char>)
    ensures
        unique_keys(entries) ==> unique_keys(put(entries, key, value)),
        to_map(put(entries, key, value)) == to_map(entries).insert(key, value),
        put(entries, key, value).len() == if has_key(entries, key) {
            entries.len()
        } else {
            entries.len() + 1
        },
{
    let after = put(entries, key, value);
    let p = if has_key(entries, key) {
        place_of(entries, key)
    } else {
        entries.len() as int
    };
    if has_key(entries, key) {
        lemma_first_place(entries, key);
    }
    assert forall|i: int| 0 <= i < entries.len() implies (#[trigger] after[i]).0 == entries[i].0 by {}
    lemma_place_of(after, key, p);
    assert forall|k: Seq<char>| k != key implies (has_key(after, k) <==> has_key(entries, k)) by {
        if has_key(entries, k) {
            let i = choose|i: int| 0 <= i < entries.len() && (#[trigger] entries[i]).0 == k;
            assert(after[i].0 == k);
        }
    }
    assert forall|k: Seq<char>| k != key && has_key(entries, k) implies place_of(after, k) == place_of(
        entries,
        k,
    ) by {
        lemma_first_place(entries, k);
        let i = place_of(entries, k);
        lemma_place_of(after, k, i);
    }
    assert forall|k: Seq<char>| to_map(after).contains_key(k) implies to_map(after)[k] == to_map(
        entries,
    ).insert(key, value)[k] by {
        if k != key {
            lemma_first_place(entries, k);
        }
    }
}

/// Written twice under one key, a header is there once, with the second
/// value: the second write undoes the first, the key stands in exactly one
/// entry, and the mapping gives the second value for it.
pub proof fn lemma_put_twice(
    entries: Seq<(Seq<char>, Seq<char>)>,
    key: Seq<char>,
    first: Seq<char>,
    second: Seq<char>,
)
    requires
        unique_keys(entries),
    ensures
        put(put(entries, key, first), key, second) == put(entries, key, second),
        count_key(put(put(entries, key, first), key, second), key) == 1,
        to_map(put(put(entries, key, first), key, second)).contains_key(key),
        to_map(put(put(entries, key, first), key, second))[key] == second,
        to_map(put(put(entries, key, first), key, second)) == to_map(entries).insert(key, second),
{
    let once = put(entries, key, first);
    let twice = put(once, key, second);
    lemma_put(entries, key, first);
    lemma_put(entries, key, second);
    lemma_put(once, key, second);
    let p = if has_key(entries, key) {
        place_of(entries, key)
    } else {
        entries.len() as int
    };
    if has_key(entries, key) {
        lemma_first_place(entries, key);
    }
    lemma_place_of(once, key, p);
    assert(twice[p].0 == key);
    lemma_count_unique(twice, key);
}

/// Where the keys are unique, a key that occurs is counted once, and one
/// that does not occur is counted zero times.
pub proof fn lemma_count_unique(entries: Seq<(Seq<char>, Seq<char>)>, key: Seq<char>)
    requires
        unique_keys(entries),
    ensures
        count_key(entries, key) == if has_key(entries, key) {
            1nat
        } else {
            0nat
        },
    decreases entries.len(),
{
    if entries.len() > 0 {
        let front = entries.drop_last();
        assert forall|i: int| 0 <= i < front.len() implies (#[trigger] front[i]) == entries[i] by {}
        lemma_count_unique(front, key);
        if has_key(entries, key) && !has_key(front, key) {
            let i = choose|i: int| 0 <= i < entries.len() && (#[trigger] entries[i]).0 == key;
            if i < front.len() {
                assert(front[i].0 == key);
            }
        }
    }
}

/// A mapping with N keys gives N header lines, each the line of one key with
/// the value that the mapping has for it, and every key has its line.
pub proof fn lemma_lines_match(entries: Seq<(Seq<char>, Seq<char>)>)
    requires
        unique_keys(entries),
    ensures
        to_map(entries).dom().finite(),
        lines_of(entries).len() == to_map(entries).dom().len(),
        keys_of(entries).no_duplicates(),
        keys_of(entries).to_set() == to_map(entries).dom(),
        forall|i: int|
            0 <= i < entries.len() ==> #[trigger] lines_of(entries)[i] == header_line(
                keys_of(entries)[i],
                to_map(entries)[keys_of(entries)[i]],
            ),
        forall|key: Seq<char>| #[trigger]
            to_map(entries).contains_key(key) ==> lines_of(entries).contains(
                header_line(key, to_map(entries)[key]),
            ),
{
    let keys = keys_of(entries);
    let map = to_map(entries);
    assert(keys.to_set() =~= map.dom()) by {
        assert forall|k: Seq<char>| has_key(entries, k) implies keys.to_set().contains(k) by {
            let i = choose|i: int| 0 <= i < entries.len() && (#[trigger] entries[i]).0 == k;
            assert(keys[i] == k);
        }
    }
    keys.unique_seq_to_set();
    vstd::seq_lib::seq_to_set_is_finite(keys);
    assert forall|i: int| 0 <= i < entries.len() implies #[trigger] lines_of(entries)[i] == header_line(
        keys[i],
        map[keys[i]],
    ) by {
        lemma_place_of(entries, keys[i], i);
    }
    assert forall|key: Seq<char>| #[trigger] map.contains_key(key) implies lines_of(entries).contains(
        header_line(key, map[key]),
    ) by {
        lemma_first_place(entries, key);
        let i = place_of(entries, key);
        assert(lines_of(entries)[i] == header_line(key, map[key]));
    }
}

/// The headers of a request: keys with their values. No key occurs twice, a
/// later write under a key replaces the earlier one, and the keys keep the
/// order in which they first came.
#[derive(Debug)]
pub struct HeaderMap {
    entries: Vec<(String, String)>,
}

impl View for HeaderMap {
    type V = Map<Seq<char>, Seq<char>>;

    /// The mapping from key to value.
    open spec fn view(&self) -> Map<Seq<char>, Seq<char>> {
        to_map(self.entries())
    }
}

impl HeaderMap {
    /// The entries as texts, in the order of the keys.
    pub closed spec fn entries(&self) -> Seq<(Seq<char>, Seq<char>)> {
        Seq::new(self.entries@.len(), |i: int| (self.entries@[i].0@, self.entries@[i].1@))
    }

    /// The invariant of the type: no key occurs twice.
    pub open spec fn wf(&self) -> bool {
        unique_keys(self.entries())
    }

    /// The header lines, one for each key.
    pub open spec fn lines(&self) -> Seq<Seq<char>> {
        lines_of(self.entries())
    }

    /// A mapping without keys.
    pub fn new() -> (headers: HeaderMap)
        ensures
            headers.wf(),
            headers.entries() == Seq::<(Seq<char>, Seq<char>)>::empty(),
            headers@ == Map::<Seq<char>, Seq<char>>::empty(),
    {
        HeaderMap { entries: Vec::new() }
    }

    /// The number of keys.
    pub fn len(&self) -> (n: usize)
        ensures
            n == self.entries().len(),
            self.wf() ==> n == self@.dom().len(),
    {
        proof {
            if self.wf() {
                lemma_lines_match(self.entries());
            }
        }
        self.entries.len()
    }

    /// Where the key stands among the entries, if it does.
    fn find(&self, key: &String) -> (place: Option<usize>)
        ensures
            match place {
                Some(i) => has_key(self.entries(), key@) && i == place_of(self.entries(), key@),
                None => !has_key(self.entries(), key@),
            },
    {
        let mut i: usize = 0;
        while i < self.entries.len()
            invariant
                0 <= i <= self.entries@.len(),
                forall|j: int| 0 <= j < i ==> (#[trigger] self.entries()[j]).0 != key@,
            decreases self.entries@.len() - i,
        {
            if self.entries[i].0 == *key {
                proof {
                    lemma_place_of(self.entries(), key@, i as int);
                }
                return Some(i);
            }
            i = i + 1;
        }
        None
    }

    /// Writes a header: a key that is there gets the new value, another key
    /// is added. Nothing else changes.
    pub fn insert(&mut self, key: String, value: String)
        ensures
            final(self).entries() == put(old(self).entries(), key@, value@),
            final(self)@ == old(self)@.insert(key@, value@),
            old(self).wf() ==> final(self).wf(),
    {
        proof {
            lemma_put(self.entries(), key@, value@);
        }
        match self.find(&key) {
            Some(i) => {
                proof {
                    lemma_first_place(self.entries(), key@);
                }
                self.entries.set(i, (key, value));
            },
            None => {
                self.entries.push((key, value));
            },
        }
    }

    /// The value written under the key, if there is one.
    pub fn get(&self, key: &str) -> (value: Option<&String>)
        ensures
            match value {
                Some(text) => self@.contains_key(key@) && text@ == self@[key@],
                None => !self@.contains_key(key@),
            },
    {
        let wanted: String = key.to_owned();
        match self.find(&wanted) {
            Some(i) => {
                proof {
                    lemma_first_place(self.entries(), key@);
                }
                Some(&self.entries[i].1)
            },
            None => None,
        }
    }

    /// Writes the header lines out, one string for each key: the key, a
    /// colon and the value.
    pub fn to_lines(&self) -> (lines: Vec<String>)
        ensures
            texts(lines@) == self.lines(),
    {
        let mut lines: Vec<String> = Vec::new();
        let mut i: usize = 0;
        while i < self.entries.len()
            invariant
                0 <= i <= self.entries@.len(),
                lines@.len() == i,
                forall|j: int|
                    0 <= j < i ==> (#[trigger] lines@[j])@ == header_line(
                        self.entries@[j].0@,
                        self.entries@[j].1@,
                    ),
            decreases self.entries@.len() - i,
        {
            let mut line: String = self.entries[i].0.clone();
            proof {
                reveal_strlit(":");
            }
            line.append(":");
            line.append(self.entries[i].1.as_str());
            lines.push(line);
            i = i + 1;
        }
        lines
    }
}

} // verus!
