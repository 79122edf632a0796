use vstd::prelude::*;

verus! {

/// The mapping denoted by a sequence of key/value pairs: each pair is
/// inserted in order, so a later pair for a key would override an earlier
/// one.
pub open spec fn map_of(fields: Seq<(Seq<char>, Seq<char>)>) -> Map<Seq<char>, Seq<char>>
    decreases fields.len(),
{
    if fields.len() == 0 {
        Map::empty()
    } else {
        map_of(fields.drop_last()).insert(fields.last().0, fields.last().1)
    }
}

/// A key is in the mapping exactly when some pair carries it.
proof fn lemma_map_of_contains(fields: Seq<(Seq<char>, Seq<char>)>, key: Seq<char>)
    ensures
        map_of(fields).contains_key(key) <==> (exists|i: int|
            0 <= i < fields.len() && fields[i].0 == key),
    decreases fields.len(),
{
    if fields.len() > 0 {
        lemma_map_of_contains(fields.drop_last(), key);
        if fields.last().0 == key {
            assert(fields[fields.len() - 1].0 == key);
        } else {
            if exists|i: int| 0 <= i < fields.len() && fields[i].0 == key {
                let i = choose|i: int| 0 <= i < fields.len() && fields[i].0 == key;
                assert(fields.drop_last()[i] == fields[i]);
            }
            if exists|i: int| 0 <= i < fields.drop_last().len() && fields.drop_last()[i].0
                == key {
                let i = choose|i: int|
                    0 <= i < fields.drop_last().len() && fields.drop_last()[i].0 == key;
                assert(fields[i].0 == key);
            }
        }
    }
}

/// A match that no later pair overrides gives the mapping's value for its
/// key.
proof fn lemma_map_of_last_match(fields: Seq<(Seq<char>, Seq<char>)>, i: int)
    requires
        0 <= i < fields.len(),
        forall|j: int| i < j < fields.len() ==> fields[j].0 != fields[i].0,
    ensures
        map_of(fields).contains_key(fields[i].0),
        map_of(fields)[fields[i].0] == fields[i].1,
    decreases fields.len(),
{
    lemma_map_of_contains(fields, fields[i].0);
    if i == fields.len() - 1 {
        assert(fields.last() == fields[i]);
    } else {
        assert(fields.last().0 != fields[i].0);
        assert(fields.drop_last()[i] == fields[i]);
        lemma_map_of_last_match(fields.drop_last(), i);
    }
}

/// A decoded form body: field names mapped to field values.
///
/// The pairs sit in a vector whose keys are pairwise distinct, so the
/// vector and the mapping it denotes agree pair by pair.
pub struct FormData {
    fields: Vec<(String, String)>,
}

impl View for FormData {
    type V = Map<Seq<char>, Seq<char>>;

    open spec fn view(&self) -> Map<Seq<char>, Seq<char>> {
        map_of(self.fields_view())
    }
}

impl FormData {
    /// The key/value pairs as mathematical sequences, in insertion order.
    pub closed spec fn fields_view(self) -> Seq<(Seq<char>, Seq<char>)> {
        self.fields@.map_values(|p: (String, String)| (p.0@, p.1@))
    }

    /// Well-formed: no field name occurs twice.
    pub open spec fn wf(self) -> bool {
        forall|i: int, j: int|
            0 <= i < j < self.fields_view().len() ==> (#[trigger] self.fields_view()[i]).0 != (
            #[trigger] self.fields_view()[j]).0
    }

    /// An empty form body: no fields at all.
    pub fn new() -> (r: FormData)
        ensures
            r@ == Map::<Seq<char>, Seq<char>>::empty(),
            r.wf(),
    {
        let r = FormData { fields: Vec::new() };
        proof {
            assert(r.fields_view() =~= Seq::<(Seq<char>, Seq<char>)>::empty());
        }
        r
    }

    /// Add a field under a name the form does not hold yet.
    pub fn insert(&mut self, key: String, value: String)
        requires
            old(self).wf(),
            !old(self)@.contains_key(key@),
        ensures
            final(self).wf(),
            final(self)@ == old(self)@.insert(key@, value@),
    {
        proof {
            lemma_map_of_contains(self.fields_view(), key@);
        }
        self.fields.push((key, value));
        proof {
            assert(self.fields_view() =~= old(self).fields_view().push((key@, value@)));
            assert(self.fields_view().drop_last() =~= old(self).fields_view());
        }
    }

    /// Look a field up by name.
    pub fn get(&self, key: &str) -> (r: Option<&String>)
        requires
            self.wf(),
        ensures
            match r {
                Some(v) => self@.contains_key(key@) && v@ == self@[key@],
                None => !self@.contains_key(key@),
            },
    {
        let needle: String = key.to_owned();
        let n = self.fields.len();
        let mut i: usize = 0;
        while i < n
            invariant
                self.wf(),
                needle@ == key@,
                n == self.fields@.len(),
                0 <= i <= n,
                forall|j: int| 0 <= j < i ==> (#[trigger] self.fields_view()[j]).0 != key@,
            decreases n - i,
        {
            if self.fields[i].0 == needle {
                proof {
                    assert(self.fields_view()[i as int].0 == key@);
                    lemma_map_of_last_match(self.fields_view(), i as int);
                }
                return Some(&self.fields[i].1);
            }
            i += 1;
        }
        proof {
            lemma_map_of_contains(self.fields_view(), key@);
        }
        None
    }
}

} // verus!
