use vstd::prelude::*;

verus! {

/// The header fields of a HEADERS frame, in the order their names were first
/// added; no two fields share a name.
#[derive(Debug, PartialEq, Eq)]
pub struct Headers {
    fields: Vec<(String, String)>,
}

/// Name and value of a header field, as characters.
pub type FieldView = (Seq<char>, Seq<char>);

/// The value of the first field called `name`, if any.
pub open spec fn lookup(fields: Seq<FieldView>, name: Seq<char>) -> Option<Seq<char>>
    decreases fields.len(),
{
    if fields.len() == 0 {
        None
    } else if fields[0].0 == name {
        Some(fields[0].1)
    } else {
        lookup(fields.drop_first(), name)
    }
}

/// Names and values of stored fields, as characters.
pub open spec fn fields_view(fields: Seq<(String, String)>) -> Seq<FieldView> {
    fields.map_values(|f: (String, String)| (f.0@, f.1@))
}

/// Appends copies of the fields `lo..hi` of `from` to `out`.
fn copy_fields(from: &Vec<(String, String)>, lo: usize, hi: usize, out: &mut Vec<(String, String)>)
    requires
        lo <= hi <= from@.len(),
    ensures
        fields_view(final(out)@) == fields_view(old(out)@) + fields_view(from@.subrange(lo as int, hi as int)),
{
    let mut k: usize = lo;
    while k < hi
        invariant
            lo <= k <= hi <= from@.len(),
            fields_view(out@) == fields_view(old(out)@) + fields_view(from@.subrange(lo as int, k as int)),
        decreases hi - k,
    {
        let name = from[k].0.clone();
        let value = from[k].1.clone();
        let ghost before = out@;
        out.push((name, value));
        assert(fields_view(from@.subrange(lo as int, k + 1)) =~= fields_view(from@.subrange(lo as int, k as int)).push((from@[k as int].0@, from@[k as int].1@)));
        assert(fields_view(out@) =~= fields_view(before).push((from@[k as int].0@, from@[k as int].1@)));
        k = k + 1;
    }
}

/// Whether no two fields share a name.
pub open spec fn unique_names(fields: Seq<FieldView>) -> bool {
    forall|i: int, j: int| 0 <= i < j < fields.len() ==> fields[i].0 != fields[j].0
}

/// No field is called `name` exactly when `lookup` finds nothing.
pub proof fn lemma_lookup_absent(fields: Seq<FieldView>, name: Seq<char>)
    ensures
        (lookup(fields, name) is None) <==> (forall|k: int|
            0 <= k < fields.len() ==> #[trigger] fields[k].0 != name),
    decreases fields.len(),
{
    if fields.len() > 0 {
        lemma_lookup_absent(fields.drop_first(), name);
        assert forall|k: int| 1 <= k < fields.len() implies fields[k] == #[trigger] fields.drop_first()[k - 1] by {}
        if lookup(fields, name) is None {
            assert forall|k: int| 0 <= k < fields.len() implies #[trigger] fields[k].0 != name by {
                if k > 0 {
                    assert(fields.drop_first()[k - 1].0 != name);
                }
            }
        }
    }
}

/// With unique names, `lookup` finds the value of the one field called `name`.
pub proof fn lemma_lookup_unique(fields: Seq<FieldView>, i: int)
    requires
        unique_names(fields),
        0 <= i < fields.len(),
    ensures
        lookup(fields, fields[i].0) == Some(fields[i].1),
    decreases fields.len(),
{
    if i > 0 {
        let rest = fields.drop_first();
        assert(rest[i - 1] == fields[i]);
        assert(unique_names(rest)) by {
            assert forall|a: int, b: int| 0 <= a < b < rest.len() implies rest[a].0 != rest[b].0 by {
                assert(rest[a] == fields[a + 1] && rest[b] == fields[b + 1]);
            }
        }
        lemma_lookup_unique(rest, i - 1);
    }
}

/// Whether `needle` occurs in `hay` as a contiguous run.
pub open spec fn contains_bytes(hay: Seq<u8>, needle: Seq<u8>) -> bool {
    exists|i: int|
        0 <= i && i + needle.len() <= hay.len() && #[trigger] hay.subrange(i, i + needle.len())
            == needle
}

impl View for Headers {
    type V = Seq<FieldView>;

    closed spec fn view(&self) -> Seq<FieldView> {
        fields_view(self.fields@)
    }
}

impl Clone for Headers {
    fn clone(&self) -> (r: Headers)
        ensures
            r@ == self@,
    {
        self.duplicate()
    }
}

impl Headers {
    #[verifier::type_invariant]
    closed spec fn names_are_unique(&self) -> bool {
        unique_names(self@)
    }

    /// Headers with no field.
    pub fn new() -> (r: Headers)
        ensures
            r@ == Seq::<FieldView>::empty(),
    {
        let r = Headers { fields: Vec::new() };
        assert(r@ =~= Seq::<FieldView>::empty());
        r
    }

    /// Sets the field `name` to `value`: an existing field of that name keeps
    /// its place and takes the new value, else the field is appended.
    pub fn add(&mut self, name: String, value: String)
        ensures
            forall|n: Seq<char>| #[trigger]
                lookup(final(self)@, n) == if n == name@ {
                    Some(value@)
                } else {
                    lookup(old(self)@, n)
                },
            lookup(old(self)@, name@) is None ==> final(self)@ == old(self)@.push((name@, value@)),
            lookup(old(self)@, name@) is Some ==> final(self)@.len() == old(self)@.len(),
    {
        proof {
            use_type_invariant(&*self);
        }
        let ghost s = self@;
        let ghost f = (name@, value@);
        let mut i: usize = 0;
        while i < self.fields.len()
            invariant
                self@ == s,
                old(self)@ == s,
                f == (name@, value@),
                unique_names(s),
                i <= s.len(),
                forall|k: int| 0 <= k < i ==> #[trigger] s[k].0 != name@,
            decreases s.len() - i,
        {
            if self.fields[i].0 == name {
                let ghost s2 = s.update(i as int, f);
                let mut out: Vec<(String, String)> = Vec::new();
                assert(fields_view(out@) =~= Seq::<FieldView>::empty());
                copy_fields(&self.fields, 0, i, &mut out);
                let ghost before = out@;
                out.push((name, value));
                assert(fields_view(out@) =~= fields_view(before).push(f));
                let ghost middle = fields_view(out@);
                copy_fields(&self.fields, i + 1, self.fields.len(), &mut out);
                assert(fields_view(self.fields@.subrange(0, i as int)) =~= s.subrange(0, i as int));
                assert(fields_view(self.fields@.subrange(i + 1, s.len() as int)) =~= s.subrange(
                    i + 1,
                    s.len() as int,
                ));
                assert(fields_view(out@) =~= s2);
                proof {
                    assert(unique_names(s2)) by {
                        assert forall|a: int, b: int| 0 <= a < b < s2.len() implies s2[a].0 != s2[b].0 by {
                            if a != i && b != i {
                                assert(s[a].0 != s[b].0);
                            }
                            if a == i {
                                assert(s[b].0 != s[i as int].0);
                            }
                            if b == i {
                                assert(s[a].0 != s[i as int].0);
                            }
                        }
                    }
                    lemma_lookup_unique(s, i as int);
                    lemma_lookup_unique(s2, i as int);
                    assert forall|n: Seq<char>| #[trigger] lookup(s2, n) == if n == f.0 {
                        Some(f.1)
                    } else {
                        lookup(s, n)
                    } by {
                        if n != f.0 {
                            lemma_lookup_absent(s, n);
                            lemma_lookup_absent(s2, n);
                            if lookup(s, n) is Some {
                                let k = choose|k: int| 0 <= k < s.len() && s[k].0 == n;
                                assert(s2[k] == s[k]);
                                lemma_lookup_unique(s, k);
                                lemma_lookup_unique(s2, k);
                            } else {
                                assert forall|k: int| 0 <= k < s2.len() implies #[trigger] s2[k].0 != n by {
                                    if k != i {
                                        assert(s2[k] == s[k]);
                                    }
                                }
                            }
                        }
                    }
                }
                *self = Headers { fields: out };
                return;
            }
            i = i + 1;
        }
        let ghost s2 = s.push(f);
        let mut out: Vec<(String, String)> = Vec::new();
        assert(fields_view(out@) =~= Seq::<FieldView>::empty());
        copy_fields(&self.fields, 0, self.fields.len(), &mut out);
        assert(fields_view(self.fields@.subrange(0, s.len() as int)) =~= s);
        let ghost before = out@;
        out.push((name, value));
        assert(fields_view(out@) =~= fields_view(before).push(f));
        assert(fields_view(out@) =~= s2);
        proof {
            lemma_lookup_absent(s, name@);
            assert(unique_names(s2)) by {
                assert forall|a: int, b: int| 0 <= a < b < s2.len() implies s2[a].0 != s2[b].0 by {
                    assert(s2[a] == s[a]);
                    if b < s.len() {
                        assert(s2[b] == s[b]);
                    }
                }
            }
            lemma_lookup_unique(s2, s.len() as int);
            assert forall|n: Seq<char>| #[trigger] lookup(s2, n) == if n == f.0 {
                Some(f.1)
            } else {
                lookup(s, n)
            } by {
                if n != f.0 {
                    lemma_lookup_absent(s, n);
                    lemma_lookup_absent(s2, n);
                    if lookup(s, n) is Some {
                        let k = choose|k: int| 0 <= k < s.len() && s[k].0 == n;
                        assert(s2[k] == s[k]);
                        lemma_lookup_unique(s, k);
                        lemma_lookup_unique(s2, k);
                    } else {
                        assert forall|k: int| 0 <= k < s2.len() implies #[trigger] s2[k].0 != n by {
                            if k < s.len() {
                                assert(s2[k] == s[k]);
                            }
                        }
                    }
                }
            }
        }
        *self = Headers { fields: out };
    }

    /// A copy of the fields.
    pub fn duplicate(&self) -> (r: Headers)
        ensures
            r@ == self@,
    {
        proof {
            use_type_invariant(self);
        }
        let mut out: Vec<(String, String)> = Vec::new();
        assert(fields_view(out@) =~= Seq::<FieldView>::empty());
        copy_fields(&self.fields, 0, self.fields.len(), &mut out);
        assert(fields_view(self.fields@.subrange(0, self@.len() as int)) =~= self@);
        Headers { fields: out }
    }

    /// Number of fields.
    pub fn len(&self) -> (r: usize)
        ensures
            r == self@.len(),
    {
        self.fields.len()
    }

    /// The field at `index`.
    pub fn field(&self, index: usize) -> (r: (&String, &String))
        requires
            index < self@.len(),
        ensures
            (r.0@, r.1@) == self@[index as int],
    {
        let f = &self.fields[index];
        (&f.0, &f.1)
    }

    /// The value of the first field called `name`, if any.
    pub fn get(&self, name: &str) -> (r: Option<&String>)
        ensures
            match r {
                Some(v) => lookup(self@, name@) == Some(v@),
                None => lookup(self@, name@) is None,
            },
    {
        let target = name.to_owned();
        let mut i: usize = 0;
        assert(self@.subrange(0, self@.len() as int) =~= self@);
        while i < self.fields.len()
            invariant
                i <= self@.len(),
                target@ == name@,
                lookup(self@, name@) == lookup(self@.subrange(i as int, self@.len() as int), name@),
            decreases self@.len() - i,
        {
            let ghost rest = self@.subrange(i as int, self@.len() as int);
            assert(rest[0] == self@[i as int]);
            if self.fields[i].0 == target {
                return Some(&self.fields[i].1);
            }
            assert(rest.drop_first() =~= self@.subrange(i + 1, self@.len() as int));
            i = i + 1;
        }
        assert(self@.subrange(i as int, self@.len() as int).len() == 0);
        None
    }
}

/// Whether `needle` occurs in `hay` starting at `start`.
fn matches_at(hay: &[u8], needle: &[u8], start: usize) -> (r: bool)
    requires
        start + needle@.len() <= hay@.len(),
    ensures
        r == (hay@.subrange(start as int, start + needle@.len()) == needle@),
{
    let hay_len: usize = hay.len();
    let mut j: usize = 0;
    while j < needle.len()
        invariant
            hay_len == hay@.len(),
            start + needle@.len() <= hay@.len(),
            j <= needle@.len(),
            forall|m: int| 0 <= m < j ==> hay@[start + m] == needle@[m],
        decreases needle@.len() - j,
    {
        if hay[start + j] != needle[j] {
            assert(hay@.subrange(start as int, start + needle@.len())[j as int] != needle@[j as int]);
            return false;
        }
        j = j + 1;
    }
    assert(hay@.subrange(start as int, start + needle@.len()) =~= needle@);
    true
}

/// Whether `hay` holds `needle` as a contiguous run of bytes.
pub fn contains_subslice(hay: &[u8], needle: &[u8]) -> (r: bool)
    ensures
        r == contains_bytes(hay@, needle@),
{
    if needle.len() > hay.len() {
        return false;
    }
    let mut i: usize = 0;
    while needle.len() <= hay.len() - i
        invariant
            i <= hay@.len(),
            forall|k: int|
                0 <= k < i ==> #[trigger] hay@.subrange(k, k + needle@.len()) != needle@,
        decreases hay@.len() - i,
    {
        if matches_at(hay, needle, i) {
            return true;
        }
        assert(needle@.len() > 0) by {
            if needle@.len() == 0 {
                assert(hay@.subrange(i as int, i as int) =~= needle@);
            }
        }
        i = i + 1;
    }
    assert forall|k: int|
        0 <= k && k + needle@.len() <= hay@.len() implies #[trigger] hay@.subrange(
        k,
        k + needle@.len(),
    ) != needle@ by {}
    false
}

} // verus!
