//! A set of header fields in which each name occurs once.

use vstd::prelude::*;
use vstd::string::*;

verus! {

/// Header fields keyed by name. Setting a name that is already present
/// replaces its value; the view is the mapping from names to values.
#[derive(Debug)]
pub struct Headers {
    fields: Vec<(String, String)>,
}

/// The names of a list of fields, in order.
pub open spec fn names_of(fields: Seq<(String, String)>) -> Seq<Seq<char>> {
    fields.map_values(|f: (String, String)| f.0@)
}

/// The position of the field called `name`, if there is one.
pub open spec fn position_of(fields: Seq<(String, String)>, name: Seq<char>) -> int {
    choose|i: int| 0 <= i < fields.len() && fields[i].0@ == name
}

/// The mapping from names to values that a list of fields stands for.
pub open spec fn mapping_of(fields: Seq<(String, String)>) -> Map<Seq<char>, Seq<char>> {
    Map::new(
        |name: Seq<char>| names_of(fields).contains(name),
        |name: Seq<char>| fields[position_of(fields, name)].1@,
    )
}

/// In a list without repeated names, a name is found where it stands.
pub proof fn lemma_position_of(fields: Seq<(String, String)>, i: int)
    requires
        names_of(fields).no_duplicates(),
        0 <= i < fields.len(),
    ensures
        position_of(fields, fields[i].0@) == i,
        names_of(fields).contains(fields[i].0@),
        mapping_of(fields)[fields[i].0@] == fields[i].1@,
{
    let names = names_of(fields);
    assert(names[i] == fields[i].0@);
    let p = position_of(fields, fields[i].0@);
    assert(0 <= p < fields.len() && fields[p].0@ == fields[i].0@);
    assert(names[p] == names[i]);
}

/// A name that no field carries is not in the mapping.
pub proof fn lemma_absent(fields: Seq<(String, String)>, name: Seq<char>)
    requires
        forall|j: int| 0 <= j < fields.len() ==> (#[trigger] fields[j]).0@ != name,
    ensures
        !mapping_of(fields).contains_key(name),
{
    let names = names_of(fields);
    if names.contains(name) {
        let j = choose|j: int| 0 <= j < names.len() && names[j] == name;
        assert(fields[j].0@ == name);
    }
}

/// Replacing the value of the field at `i` sets that name in the mapping.
pub proof fn lemma_replace(fields: Seq<(String, String)>, i: int, field: (String, String))
    requires
        names_of(fields).no_duplicates(),
        0 <= i < fields.len(),
        field.0@ == fields[i].0@,
    ensures
        names_of(fields.update(i, field)) == names_of(fields),
        mapping_of(fields.update(i, field)) == mapping_of(fields).insert(field.0@, field.1@),
{
    let after = fields.update(i, field);
    let names = names_of(fields);
    assert(names_of(after) =~= names);
    assert(names[i] == fields[i].0@);
    assert forall|name: Seq<char>| #[trigger] mapping_of(after).contains_key(name) implies mapping_of(
        after,
    )[name] == mapping_of(fields).insert(field.0@, field.1@)[name] by {
        assert(names.contains(name));
        let j = choose|j: int| 0 <= j < names.len() && names[j] == name;
        assert(names[j] == fields[j].0@);
        lemma_position_of(fields, j);
        if j == i {
            assert(after[j] == field);
        } else {
            assert(after[j] == fields[j]);
            assert(names[j] != names[i]);
        }
        assert(after[j].0@ == name);
        lemma_position_of(after, j);
    }
    assert(mapping_of(after) =~= mapping_of(fields).insert(field.0@, field.1@));
}

/// Appending a field with a new name adds that name to the mapping.
pub proof fn lemma_append(fields: Seq<(String, String)>, field: (String, String))
    requires
        names_of(fields).no_duplicates(),
        forall|j: int| 0 <= j < fields.len() ==> (#[trigger] fields[j]).0@ != field.0@,
    ensures
        names_of(fields.push(field)).no_duplicates(),
        mapping_of(fields.push(field)) == mapping_of(fields).insert(field.0@, field.1@),
{
    let after = fields.push(field);
    let names = names_of(fields);
    assert(names_of(after) =~= names.push(field.0@));
    assert forall|a: int, b: int|
        0 <= a < names_of(after).len() && 0 <= b < names_of(after).len() && a != b implies names_of(
        after,
    )[a] != names_of(after)[b] by {
        if a < fields.len() {
            assert(names_of(after)[a] == fields[a].0@);
            assert(names[a] == fields[a].0@);
        }
        if b < fields.len() {
            assert(names_of(after)[b] == fields[b].0@);
            assert(names[b] == fields[b].0@);
        }
    }
    let last = fields.len() as int;
    assert(after[last] == field);
    lemma_position_of(after, last);
    assert forall|name: Seq<char>|
        mapping_of(after).contains_key(name) <==> #[trigger] mapping_of(fields).insert(
            field.0@,
            field.1@,
        ).contains_key(name) by {
        if names_of(after).contains(name) {
            let j = choose|j: int| 0 <= j < names_of(after).len() && names_of(after)[j] == name;
            if j < fields.len() {
                assert(names[j] == name);
            }
        }
        if names.contains(name) {
            let j = choose|j: int| 0 <= j < names.len() && names[j] == name;
            assert(names_of(after)[j] == name);
        }
    }
    assert forall|name: Seq<char>| #[trigger] mapping_of(after).contains_key(name) implies mapping_of(
        after,
    )[name] == mapping_of(fields).insert(field.0@, field.1@)[name] by {
        let j = choose|j: int| 0 <= j < names_of(after).len() && names_of(after)[j] == name;
        assert(after[j].0@ == name);
        lemma_position_of(after, j);
        if j < fields.len() {
            assert(after[j] == fields[j]);
            lemma_position_of(fields, j);
        }
    }
    assert(mapping_of(after) =~= mapping_of(fields).insert(field.0@, field.1@));
}

/// The mapping of the first `i + 1` fields is that of the first `i` with
/// field `i` set.
pub proof fn lemma_take_next(fields: Seq<(String, String)>, i: int)
    requires
        names_of(fields).no_duplicates(),
        0 <= i < fields.len(),
    ensures
        names_of(fields.take(i)).no_duplicates(),
        mapping_of(fields.take(i + 1)) == mapping_of(fields.take(i)).insert(
            fields[i].0@,
            fields[i].1@,
        ),
{
    let head = fields.take(i);
    let names = names_of(fields);
    assert forall|a: int, b: int|
        0 <= a < names_of(head).len() && 0 <= b < names_of(head).len() && a != b implies names_of(
        head,
    )[a] != names_of(head)[b] by {
        assert(names_of(head)[a] == names[a]);
        assert(names_of(head)[b] == names[b]);
    }
    assert forall|j: int| 0 <= j < head.len() implies (#[trigger] head[j]).0@ != fields[i].0@ by {
        assert(names[j] == fields[j].0@);
        assert(names[i] == fields[i].0@);
    }
    lemma_append(head, fields[i]);
    assert(fields.take(i + 1) =~= head.push(fields[i]));
}

impl View for Headers {
    type V = Map<Seq<char>, Seq<char>>;

    open spec fn view(&self) -> Map<Seq<char>, Seq<char>> {
        mapping_of(self.fields())
    }
}

impl Headers {
    /// No name occurs twice.
    #[verifier::type_invariant]
    closed spec fn distinct_names(self) -> bool {
        names_of(self.fields@).no_duplicates()
    }

    /// The fields, in the order in which their names were first set.
    pub closed spec fn fields(self) -> Seq<(String, String)> {
        self.fields@
    }

    /// An empty set of headers.
    pub fn new() -> (r: Self)
        ensures
            r@ == Map::<Seq<char>, Seq<char>>::empty(),
            r.fields().len() == 0,
    {
        let r = Headers { fields: Vec::new() };
        assert(r@ =~= Map::<Seq<char>, Seq<char>>::empty());
        r
    }

    /// The number of fields.
    pub fn len(&self) -> (r: usize)
        ensures
            r == self@.len(),
            r == self.fields().len(),
            self@.dom().finite(),
    {
        proof {
            use_type_invariant(self);
            let names = names_of(self.fields@);
            names.unique_seq_to_set();
            assert(self@.dom() =~= names.to_set());
        }
        self.fields.len()
    }

    /// Whether there is no field at all.
    pub fn is_empty(&self) -> (r: bool)
        ensures
            r == (self@.len() == 0),
            r == (self.fields().len() == 0),
    {
        self.len() == 0
    }

    /// The fields as a list, each name once.
    pub fn entries(&self) -> (r: &Vec<(String, String)>)
        ensures
            r@ == self.fields(),
            names_of(r@).no_duplicates(),
    {
        proof {
            use_type_invariant(self);
        }
        &self.fields
    }

    /// The value set for `name`, if any.
    pub fn get(&self, name: &str) -> (r: Option<&String>)
        ensures
            match r {
                Some(value) => self@.contains_key(name@) && self@[name@] == value@,
                None => !self@.contains_key(name@),
            },
    {
        proof {
            use_type_invariant(self);
        }
        let wanted = String::from_str(name);
        let mut i: usize = 0;
        while i < self.fields.len()
            invariant
                i <= self.fields.len(),
                wanted@ == name@,
                names_of(self.fields@).no_duplicates(),
                forall|j: int| 0 <= j < i ==> (#[trigger] self.fields@[j]).0@ != name@,
            decreases self.fields.len() - i,
        {
            if self.fields[i].0 == wanted {
                proof {
                    lemma_position_of(self.fields@, i as int);
                }
                return Some(&self.fields[i].1);
            }
            i += 1;
        }
        proof {
            lemma_absent(self.fields@, name@);
        }
        None
    }

    /// Sets `name` to `value`, replacing the value it had.
    pub fn insert(&mut self, name: String, value: String)
        ensures
            final(self)@ == old(self)@.insert(name@, value@),
    {
        proof {
            use_type_invariant(&*self);
        }
        let mut fields: Vec<(String, String)> = Vec::new();
        core::mem::swap(&mut fields, &mut self.fields);
        let mut i: usize = 0;
        let mut found = false;
        while !found && i < fields.len()
            invariant
                i <= fields.len(),
                !found ==> forall|j: int| 0 <= j < i ==> (#[trigger] fields@[j]).0@ != name@,
                found ==> i < fields.len() && fields@[i as int].0@ == name@,
            decreases fields.len() - i + if found { 0int } else { 1int },
        {
            if fields[i].0 == name {
                found = true;
            } else {
                i += 1;
            }
        }
        if found {
            proof {
                lemma_replace(fields@, i as int, (name, value));
            }
            fields.set(i, (name, value));
        } else {
            proof {
                lemma_append(fields@, (name, value));
            }
            fields.push((name, value));
        }
        self.fields = fields;
    }

    /// Sets every field of `other`, replacing the values of names already
    /// present.
    pub fn extend_from(&mut self, other: &Headers)
        ensures
            final(self)@ == old(self)@.union_prefer_right(other@),
    {
        let fields = other.entries();
        let mut i: usize = 0;
        proof {
            assert(mapping_of(fields@.take(0)) =~= Map::<Seq<char>, Seq<char>>::empty());
            assert(self@ =~= old(self)@.union_prefer_right(mapping_of(fields@.take(0))));
        }
        while i < fields.len()
            invariant
                i <= fields.len(),
                fields@ == other.fields(),
                names_of(fields@).no_duplicates(),
                self@ == old(self)@.union_prefer_right(mapping_of(fields@.take(i as int))),
            decreases fields.len() - i,
        {
            proof {
                lemma_take_next(fields@, i as int);
                assert(old(self)@.union_prefer_right(mapping_of(fields@.take(i as int))).insert(
                    fields@[i as int].0@,
                    fields@[i as int].1@,
                ) =~= old(self)@.union_prefer_right(
                    mapping_of(fields@.take(i as int)).insert(
                        fields@[i as int].0@,
                        fields@[i as int].1@,
                    ),
                ));
            }
            self.insert(fields[i].0.clone(), fields[i].1.clone());
            i += 1;
        }
        proof {
            assert(fields@.take(fields@.len() as int) =~= fields@);
        }
    }
}

impl Clone for Headers {
    fn clone(&self) -> (r: Self)
        ensures
            r@ == self@,
    {
        let mut r = Headers::new();
        proof {
            assert(Map::<Seq<char>, Seq<char>>::empty().union_prefer_right(self@) =~= self@);
        }
        r.extend_from(self);
        r
    }
}

} // verus!
