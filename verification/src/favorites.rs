//! The payloads that the user keeps at hand, each known by its file name.
//!
//! The files are the caller's to list, copy and delete. This module keeps
//! the names: in order, each once, and found again by a name that may have
//! white space around it.

use vstd::prelude::*;
use vstd::string::*;

verus! {

/// Whether a character is white space, as Unicode defines it.
pub open spec fn is_whitespace(c: char) -> bool {
    let code = c as u32;
    (0x09 <= code <= 0x0d) || code == 0x20 || code == 0x85 || code == 0xa0 || code == 0x1680 || (
    0x2000 <= code <= 0x200a) || code == 0x2028 || code == 0x2029 || code == 0x202f || code
        == 0x205f || code == 0x3000
}

/// `text` without the white space at its start.
pub open spec fn trim_start(text: Seq<char>) -> Seq<char>
    decreases text.len(),
{
    if text.len() > 0 && is_whitespace(text[0]) {
        trim_start(text.subrange(1, text.len() as int))
    } else {
        text
    }
}

/// `text` without the white space at its end.
pub open spec fn trim_end(text: Seq<char>) -> Seq<char>
    decreases text.len(),
{
    if text.len() > 0 && is_whitespace(text[text.len() - 1]) {
        trim_end(text.subrange(0, text.len() - 1))
    } else {
        text
    }
}

/// `text` without the white space at its start and at its end.
pub open spec fn trimmed(text: Seq<char>) -> Seq<char> {
    trim_end(trim_start(text))
}

/// Whether `a` comes before `b` in the order of names: at the first place
/// where they differ `a` has the smaller character, or `a` ends there and
/// `b` goes on.
pub open spec fn precedes(a: Seq<char>, b: Seq<char>) -> bool
    decreases a.len(),
{
    if b.len() == 0 {
        false
    } else if a.len() == 0 {
        true
    } else if a[0] != b[0] {
        (a[0] as u32) < (b[0] as u32)
    } else {
        precedes(a.subrange(1, a.len() as int), b.subrange(1, b.len() as int))
    }
}

/// Whether the names stand in their order, each before the next.
pub open spec fn sorted(names: Seq<Seq<char>>) -> bool {
    forall|i: int, j: int|
        0 <= i < j < names.len() ==> precedes(#[trigger] names[i], #[trigger] names[j])
}

/// Whether a file of this name is taken for a payload: the name ends in
/// `.bin` and has something before that.
pub open spec fn is_payload_name(file_name: Seq<char>) -> bool {
    file_name.len() > 4 && file_name.subrange(file_name.len() - 4, file_name.len() as int)
        == ".bin"@
}

/// Whether one of the first `count` file names is that of a payload and
/// gives the name `name`.
pub open spec fn is_listed(file_names: Seq<String>, count: int, name: Seq<char>) -> bool {
    exists|k: int|
        0 <= k < count && is_payload_name((#[trigger] file_names[k])@) && trimmed(file_names[k]@)
            == name
}

/// Calls `str::trim`. The contract states what std documents of it: the
/// result is the text without its leading and trailing white space, where
/// white space is what Unicode's property `White_Space` says.
#[verifier::external_body]
fn trim(text: &str) -> (kept: &str)
    ensures
        kept@ == trimmed(text@),
{
    text.trim()
}

/// Calls `<` of `str`. The contract states what std documents of the order
/// of strings: it goes by the bytes, which orders strings character by
/// character, each character by its code point.
#[verifier::external_body]
fn comes_before(a: &str, b: &str) -> (before: bool)
    ensures
        before == precedes(a@, b@),
{
    a < b
}

/// No name comes before itself.
pub proof fn lemma_precedes_irreflexive(a: Seq<char>)
    ensures
        !precedes(a, a),
    decreases a.len(),
{
    if a.len() > 0 {
        lemma_precedes_irreflexive(a.subrange(1, a.len() as int));
    }
}

/// What comes before a name comes before all that the name comes before.
pub proof fn lemma_precedes_transitive(a: Seq<char>, b: Seq<char>, c: Seq<char>)
    requires
        precedes(a, b),
        precedes(b, c),
    ensures
        precedes(a, c),
    decreases a.len(),
{
    if a.len() > 0 && a[0] == b[0] && b[0] == c[0] {
        lemma_precedes_transitive(
            a.subrange(1, a.len() as int),
            b.subrange(1, b.len() as int),
            c.subrange(1, c.len() as int),
        );
    }
}

/// Of two different characters one has the smaller code point.
proof fn lemma_characters_differ(x: char, y: char)
    requires
        x != y,
    ensures
        (x as u32) < (y as u32) || (y as u32) < (x as u32),
{
}

/// Of two different names one comes before the other.
pub proof fn lemma_precedes_total(a: Seq<char>, b: Seq<char>)
    ensures
        precedes(a, b) || precedes(b, a) || a == b,
    decreases a.len(),
{
    if a.len() == 0 && b.len() == 0 {
        assert(a =~= b);
    } else if a.len() > 0 && b.len() > 0 {
        if a[0] != b[0] {
            lemma_characters_differ(a[0], b[0]);
        } else {
            let rest_a = a.subrange(1, a.len() as int);
            let rest_b = b.subrange(1, b.len() as int);
            lemma_precedes_total(rest_a, rest_b);
            if rest_a == rest_b {
                assert(a =~= seq![a[0]] + rest_a);
                assert(b =~= seq![b[0]] + rest_b);
            }
        }
    }
}

/// Names that stand in their order are determined by which names they are:
/// two such sequences with the same names are the same sequence.
pub proof fn lemma_sorted_unique(a: Seq<Seq<char>>, b: Seq<Seq<char>>)
    requires
        sorted(a),
        sorted(b),
        forall|name: Seq<char>| a.contains(name) <==> b.contains(name),
    ensures
        a == b,
    decreases a.len(),
{
    if a.len() == 0 {
        if b.len() > 0 {
            assert(b.contains(b[0]));
        }
        assert(a =~= b);
    } else {
        assert(a.contains(a[0]));
        if b.len() == 0 {
            assert(false);
        }
        assert(b.contains(b[0]));
        // the first of each is the least of both
        let i = choose|i: int| 0 <= i < b.len() && b[i] == a[0];
        let j = choose|j: int| 0 <= j < a.len() && a[j] == b[0];
        if i > 0 && j > 0 {
            lemma_precedes_transitive(a[0], a[j], b[i]);
            lemma_precedes_irreflexive(a[0]);
        } else if i > 0 {
            lemma_precedes_irreflexive(a[0]);
        } else if j > 0 {
            lemma_precedes_irreflexive(b[0]);
        }
        assert(a[0] == b[0]);
        let rest_a = a.subrange(1, a.len() as int);
        let rest_b = b.subrange(1, b.len() as int);
        assert forall|name: Seq<char>| rest_a.contains(name) <==> rest_b.contains(name) by {
            if rest_a.contains(name) {
                let k = choose|k: int| 0 <= k < rest_a.len() && rest_a[k] == name;
                assert(a[k + 1] == name);
                assert(a.contains(name));
                let m = choose|m: int| 0 <= m < b.len() && b[m] == name;
                if m == 0 {
                    lemma_precedes_irreflexive(name);
                }
                assert(rest_b[m - 1] == name);
            }
            if rest_b.contains(name) {
                let k = choose|k: int| 0 <= k < rest_b.len() && rest_b[k] == name;
                assert(b[k + 1] == name);
                assert(b.contains(name));
                let m = choose|m: int| 0 <= m < a.len() && a[m] == name;
                if m == 0 {
                    lemma_precedes_irreflexive(name);
                }
                assert(rest_a[m - 1] == name);
            }
        }
        assert(sorted(rest_a)) by {
            assert forall|x: int, y: int| 0 <= x < y < rest_a.len() implies precedes(
                #[trigger] rest_a[x],
                #[trigger] rest_a[y],
            ) by {
                assert(precedes(a[x + 1], a[y + 1]));
            }
        }
        assert(sorted(rest_b)) by {
            assert forall|x: int, y: int| 0 <= x < y < rest_b.len() implies precedes(
                #[trigger] rest_b[x],
                #[trigger] rest_b[y],
            ) by {
                assert(precedes(b[x + 1], b[y + 1]));
            }
        }
        lemma_sorted_unique(rest_a, rest_b);
        assert(a =~= seq![a[0]] + rest_a);
        assert(b =~= seq![b[0]] + rest_b);
    }
}

/// Whether a file of this name is taken for a payload.
pub fn is_payload_file(file_name: &str) -> (is: bool)
    ensures
        is == is_payload_name(file_name@),
{
    let len = file_name.unicode_len();
    if len <= 4 {
        return false;
    }
    proof {
        reveal_strlit(".bin");
    }
    let ghost end = file_name@.subrange(len - 4, len as int);
    let is = file_name.get_char(len - 4) == '.' && file_name.get_char(len - 3) == 'b'
        && file_name.get_char(len - 2) == 'i' && file_name.get_char(len - 1) == 'n';
    proof {
        assert(end[0] == file_name@[len - 4]);
        assert(end[1] == file_name@[len - 3]);
        assert(end[2] == file_name@[len - 2]);
        assert(end[3] == file_name@[len - 1]);
        if is {
            assert(end =~= ".bin"@);
        }
    }
    is
}

/// A payload that the user keeps at hand.
#[derive(Debug, PartialEq, Eq, PartialOrd, Ord)]
pub struct Favorite {
    name: String,
}

impl Favorite {
    /// The name of the favorite.
    pub closed spec fn spec_name(&self) -> Seq<char> {
        self.name@
    }

    /// The favorite of this name, which is taken without the white space
    /// around it.
    pub fn new(name: &str) -> (favorite: Favorite)
        ensures
            favorite.spec_name() == trimmed(name@),
    {
        Favorite { name: String::from_str(trim(name)) }
    }

    /// The name of the favorite.
    pub fn name(&self) -> (name: &str)
        ensures
            name@ == self.spec_name(),
    {
        self.name.as_str()
    }
}

impl Clone for Favorite {
    fn clone(&self) -> (copy: Favorite)
        ensures
            copy.spec_name() == self.spec_name(),
    {
        Favorite { name: self.name.clone() }
    }
}

/// Favorite payloads, in the order of their names, each name once.
#[derive(Debug, PartialEq, Eq)]
pub struct Favorites {
    list: Vec<Favorite>,
}

impl Clone for Favorites {
    fn clone(&self) -> (copy: Favorites)
        ensures
            copy@ == self@,
    {
        proof {
            use_type_invariant(self);
        }
        let mut list: Vec<Favorite> = Vec::new();
        let mut at: usize = 0;
        while at < self.list.len()
            invariant
                at <= self.list@.len(),
                list@.len() == at,
                forall|i: int| 0 <= i < at ==> (#[trigger] list@[i]).spec_name() == self.list@[i].spec_name(),
            decreases self.list@.len() - at,
        {
            list.push(self.list[at].clone());
            at += 1;
        }
        assert(Seq::new(list@.len(), |i: int| list@[i].spec_name()) =~= self@);
        Favorites { list }
    }
}

impl View for Favorites {
    type V = Seq<Seq<char>>;

    /// The names of the favorites, in their order.
    closed spec fn view(&self) -> Seq<Seq<char>> {
        Seq::new(self.list@.len(), |i: int| self.list@[i].spec_name())
    }
}

impl Favorites {
    #[verifier::type_invariant]
    spec fn well_formed(self) -> bool {
        sorted(self@)
    }

    /// The favorites among the files of a directory, given by their names:
    /// those whose names are names of payloads.
    pub fn new(file_names: &[String]) -> (favorites: Favorites)
        ensures
            sorted(favorites@),
            forall|name: Seq<char>|
                favorites@.contains(name) <==> is_listed(file_names@, file_names@.len() as int, name),
    {
        let mut favorites = Favorites { list: Vec::new() };
        let mut at: usize = 0;
        while at < file_names.len()
            invariant
                at <= file_names@.len(),
                forall|name: Seq<char>|
                    favorites@.contains(name) <==> is_listed(file_names@, at as int, name),
            decreases file_names@.len() - at,
        {
            let ghost before = favorites@;
            let file_name = file_names[at].as_str();
            if is_payload_file(file_name) {
                let _ = favorites.add(file_name);
            }
            proof {
                let added = trimmed(file_names@[at as int]@);
                assert forall|name: Seq<char>|
                    favorites@.contains(name) <==> is_listed(
                        file_names@,
                        at + 1,
                        name,
                    ) by {
                    if is_listed(file_names@, at + 1, name) {
                        let k = choose|k: int|
                            0 <= k < at + 1 && is_payload_name((#[trigger] file_names@[k])@)
                                && trimmed(file_names@[k]@) == name;
                        if k < at {
                            assert(is_listed(file_names@, at as int, name));
                        }
                    }
                    if favorites@.contains(name) {
                        if before.contains(name) {
                            let k = choose|k: int|
                                0 <= k < at && is_payload_name((#[trigger] file_names@[k])@)
                                    && trimmed(file_names@[k]@) == name;
                            assert(is_listed(file_names@, at + 1, name));
                        } else {
                            assert(is_payload_name(file_names@[at as int]@) && name == added);
                            assert(is_listed(file_names@, at + 1, name));
                        }
                    }
                }
            }
            at += 1;
        }
        proof {
            use_type_invariant(&favorites);
        }
        favorites
    }

    /// The favorites, in the order of their names.
    pub fn iter(&self) -> (favorites: &[Favorite])
        ensures
            sorted(self@),
            favorites@.len() == self@.len(),
            forall|i: int| 0 <= i < self@.len() ==> (#[trigger] favorites@[i]).spec_name() == self@[i],
    {
        proof {
            use_type_invariant(self);
        }
        self.list.as_slice()
    }

    /// The number of favorites.
    pub fn len(&self) -> (len: usize)
        ensures
            len == self@.len(),
    {
        self.list.len()
    }

    /// The position of the first favorite that `name` does not come after,
    /// or the number of favorites where it comes after all.
    fn position(&self, name: &str) -> (at: usize)
        ensures
            at <= self@.len(),
            forall|i: int| 0 <= i < at ==> precedes(#[trigger] self@[i], name@),
            at < self@.len() ==> !precedes(self@[at as int], name@),
    {
        let mut at: usize = 0;
        while at < self.list.len()
            invariant
                at <= self@.len(),
                self@.len() == self.list@.len(),
                forall|i: int| 0 <= i < at ==> precedes(#[trigger] self@[i], name@),
            decreases self@.len() - at,
        {
            if !comes_before(self.list[at].name(), name) {
                return at;
            }
            at += 1;
        }
        at
    }

    /// Whether the favorite at `at`, where `position` stopped for `name`,
    /// has that name.
    fn is_at(&self, at: usize, name: &str) -> (found: bool)
        requires
            at <= self@.len(),
            forall|i: int| 0 <= i < at ==> precedes(#[trigger] self@[i], name@),
            at < self@.len() ==> !precedes(self@[at as int], name@),
        ensures
            found == self@.contains(name@),
            found ==> at < self@.len() && self@[at as int] == name@,
    {
        proof {
            use_type_invariant(self);
            lemma_precedes_irreflexive(name@);
        }
        let found = at < self.list.len() && !comes_before(name, self.list[at].name());
        proof {
            if found {
                lemma_precedes_total(self@[at as int], name@);
            } else {
                assert forall|i: int| 0 <= i < self@.len() implies self@[i] != name@ by {
                    if i > at {
                        if self@[i] == name@ {
                            assert(precedes(self@[at as int], self@[i]));
                        }
                    }
                }
            }
        }
        found
    }

    /// Get a favorite by its name, which is taken without the white space
    /// around it. `None` where there is no favorite of that name.
    pub fn get(&self, favorite: &str) -> (found: Option<&Favorite>)
        ensures
            found is Some <==> self@.contains(trimmed(favorite@)),
            found matches Some(entry) ==> entry.spec_name() == trimmed(favorite@),
    {
        let name = trim(favorite);
        let at = self.position(name);
        if self.is_at(at, name) {
            Some(&self.list[at])
        } else {
            None
        }
    }

    /// Whether there is a favorite of this name, which is taken without the
    /// white space around it.
    pub fn contains(&self, file_name: &str) -> (found: bool)
        ensures
            found == self@.contains(trimmed(file_name@)),
    {
        self.get(file_name).is_some()
    }

    /// Takes the file of this name among the favorites, unless it is one
    /// already, and returns the favorite.
    pub fn add(&mut self, file_name: &str) -> (favorite: Favorite)
        ensures
            favorite.spec_name() == trimmed(file_name@),
            sorted(final(self)@),
            forall|name: Seq<char>|
                final(self)@.contains(name) <==> old(self)@.contains(name) || name == trimmed(
                    file_name@,
                ),
    {
        proof {
            use_type_invariant(&*self);
        }
        let favorite = Favorite::new(file_name);
        let at = self.position(favorite.name());
        let ghost before = self@;
        let ghost name = favorite.spec_name();
        if !self.is_at(at, favorite.name()) {
            let mut list: Vec<Favorite> = Vec::new();
            std::mem::swap(&mut self.list, &mut list);
            list.insert(at, favorite.clone());
            proof {
                assert(Seq::new(list@.len(), |i: int| list@[i].spec_name()) =~= before.insert(
                    at as int,
                    name,
                ));
                lemma_inserted(before, at as int, name);
            }
            self.list = list;
            assert(self@ =~= before.insert(at as int, name));
        }
        favorite
    }

    /// Takes the favorite of this name from among the favorites, and says
    /// whether there was one.
    fn take(&mut self, name: &str) -> (taken: bool)
        ensures
            sorted(final(self)@),
            taken == old(self)@.contains(name@),
            forall|other: Seq<char>|
                final(self)@.contains(other) <==> old(self)@.contains(other) && other != name@,
    {
        proof {
            use_type_invariant(&*self);
        }
        let at = self.position(name);
        let ghost before = self@;
        let found = self.is_at(at, name);
        if found {
            let mut list: Vec<Favorite> = Vec::new();
            std::mem::swap(&mut self.list, &mut list);
            let _ = list.remove(at);
            proof {
                assert(Seq::new(list@.len(), |i: int| list@[i].spec_name()) =~= before.remove(
                    at as int,
                ));
                lemma_removed(before, at as int);
            }
            self.list = list;
            assert(self@ =~= before.remove(at as int));
        }
        found
    }

    /// Takes `favorite` from among the favorites.
    pub fn remove(&mut self, favorite: &Favorite)
        ensures
            sorted(final(self)@),
            forall|name: Seq<char>|
                final(self)@.contains(name) <==> old(self)@.contains(name) && name
                    != favorite.spec_name(),
    {
        let _ = self.take(favorite.name());
    }

    /// Takes the favorite of this name, which is taken without the white
    /// space around it, from among the favorites. Where there is none, the
    /// error says so and the favorites stay as they are.
    pub fn remove_str(&mut self, favorite_str: &str) -> (result: Result<(), String>)
        ensures
            sorted(final(self)@),
            result is Ok <==> old(self)@.contains(trimmed(favorite_str@)),
            forall|name: Seq<char>|
                final(self)@.contains(name) <==> old(self)@.contains(name) && name != trimmed(
                    favorite_str@,
                ),
            result matches Err(text) ==> text@ == "Failed to remove, favorite not found: "@
                + favorite_str@,
    {
        if self.take(trim(favorite_str)) {
            Ok(())
        } else {
            let mut text = String::from_str("Failed to remove, favorite not found: ");
            text.append(favorite_str);
            Err(text)
        }
    }
}

/// A name that is put where it belongs among names in their order leaves
/// them in their order, with that name more.
proof fn lemma_inserted(names: Seq<Seq<char>>, at: int, name: Seq<char>)
    requires
        sorted(names),
        0 <= at <= names.len(),
        forall|i: int| 0 <= i < at ==> precedes(#[trigger] names[i], name),
        at < names.len() ==> !precedes(names[at], name),
        !names.contains(name),
    ensures
        sorted(names.insert(at, name)),
        forall|other: Seq<char>|
            names.insert(at, name).contains(other) <==> names.contains(other) || other == name,
{
    let after = names.insert(at, name);
    assert forall|i: int| at <= i < names.len() implies precedes(name, #[trigger] names[i]) by {
        lemma_precedes_total(names[at], name);
        assert(names.contains(names[at]));
        if i > at {
            assert(precedes(names[at], names[i]));
            lemma_precedes_transitive(name, names[at], names[i]);
        }
    }
    assert forall|i: int, j: int| 0 <= i < j < after.len() implies precedes(
        #[trigger] after[i],
        #[trigger] after[j],
    ) by {
        if j < at {
            assert(after[i] == names[i] && after[j] == names[j]);
        } else if j == at {
            assert(after[i] == names[i]);
        } else if i < at {
            assert(after[i] == names[i] && after[j] == names[j - 1]);
        } else if i == at {
            assert(after[j] == names[j - 1]);
        } else {
            assert(after[i] == names[i - 1] && after[j] == names[j - 1]);
        }
    }
    assert forall|other: Seq<char>|
        after.contains(other) <==> names.contains(other) || other == name by {
        if after.contains(other) {
            let k = choose|k: int| 0 <= k < after.len() && after[k] == other;
            if k < at {
                assert(names[k] == other);
            } else if k > at {
                assert(names[k - 1] == other);
            }
        }
        if names.contains(other) {
            let k = choose|k: int| 0 <= k < names.len() && names[k] == other;
            if k < at {
                assert(after[k] == other);
            } else {
                assert(after[k + 1] == other);
            }
        }
        if other == name {
            assert(after[at] == other);
        }
    }
}

/// A name that is taken from among names in their order leaves them in
/// their order, without that name.
proof fn lemma_removed(names: Seq<Seq<char>>, at: int)
    requires
        sorted(names),
        0 <= at < names.len(),
    ensures
        sorted(names.remove(at)),
        forall|other: Seq<char>|
            names.remove(at).contains(other) <==> names.contains(other) && other != names[at],
{
    let after = names.remove(at);
    assert forall|i: int, j: int| 0 <= i < j < after.len() implies precedes(
        #[trigger] after[i],
        #[trigger] after[j],
    ) by {
        let from_i = if i < at {
            i
        } else {
            i + 1
        };
        let from_j = if j < at {
            j
        } else {
            j + 1
        };
        assert(after[i] == names[from_i] && after[j] == names[from_j]);
    }
    assert forall|other: Seq<char>|
        after.contains(other) <==> names.contains(other) && other != names[at] by {
        lemma_precedes_irreflexive(names[at]);
        if after.contains(other) {
            let k = choose|k: int| 0 <= k < after.len() && after[k] == other;
            if k < at {
                assert(names[k] == other);
                assert(precedes(names[k], names[at]));
            } else {
                assert(names[k + 1] == other);
                assert(precedes(names[at], names[k + 1]));
            }
        }
        if names.contains(other) && other != names[at] {
            let k = choose|k: int| 0 <= k < names.len() && names[k] == other;
            if k < at {
                assert(after[k] == other);
            } else {
                assert(after[k - 1] == other);
            }
        }
    }
}

} // verus!
