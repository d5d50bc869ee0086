//! The metadata recorded for each upload, kept encrypted in the payload's sidecar.

use vstd::prelude::*;

verus! {

/// A value kept in the metadata's extended fields.
#[derive(Debug)]
pub enum ExtendedValue {
    /// A text field of the upload form (stored as a JSON string).
    Text(String),
    /// A value of the `extended` JSON object, as its compact JSON text.
    Json(String),
}

/// What an extended value is: whether it is JSON text (else plain text), and the text.
pub open spec fn value_view(v: ExtendedValue) -> (bool, Seq<char>) {
    match v {
        ExtendedValue::Text(t) => (false, t@),
        ExtendedValue::Json(j) => (true, j@),
    }
}

/// The metadata of an uploaded file.
pub struct FileMetadata {
    /// The file name given at upload.
    pub filename: Option<String>,
    /// Where the upload says it comes from.
    pub origin: Option<String>,
    /// The plaintext size in bytes.
    pub filesize: Option<u64>,
    /// Custom fields, each key at most once.
    pub extended: Vec<(String, ExtendedValue)>,
}

/// No key occurs twice among the extended fields.
pub open spec fn keys_distinct(v: Seq<(String, ExtendedValue)>) -> bool {
    forall|i: int, j: int| 0 <= i < j < v.len() ==> #[trigger] v[i].0@ != #[trigger] v[j].0@
}

/// Whether some extended field has key `k`.
pub open spec fn has_key(v: Seq<(String, ExtendedValue)>, k: Seq<char>) -> bool {
    exists|i: int| 0 <= i < v.len() && #[trigger] v[i].0@ == k
}

/// The position of the last extended field with key `k`.
pub open spec fn key_position(v: Seq<(String, ExtendedValue)>, k: Seq<char>) -> Option<int>
    decreases v.len(),
{
    if v.len() == 0 {
        None
    } else if v.last().0@ == k {
        Some(v.len() - 1)
    } else {
        key_position(v.drop_last(), k)
    }
}

/// The extended fields as a map from key to value; a later field wins over an earlier one
/// with the same key.
pub open spec fn ext_map(v: Seq<(String, ExtendedValue)>) -> Map<Seq<char>, (bool, Seq<char>)>
    decreases v.len(),
{
    if v.len() == 0 {
        Map::empty()
    } else {
        ext_map(v.drop_last()).insert(v.last().0@, value_view(v.last().1))
    }
}

proof fn lemma_ext_map_update(v: Seq<(String, ExtendedValue)>, i: int, e: (String, ExtendedValue))
    requires
        0 <= i < v.len(),
        v[i].0@ == e.0@,
        forall|j: int| i < j < v.len() ==> #[trigger] v[j].0@ != e.0@,
    ensures
        ext_map(v.update(i, e)) == ext_map(v).insert(e.0@, value_view(e.1)),
    decreases v.len(),
{
    let u = v.update(i, e);
    if i == v.len() - 1 {
        assert(u.drop_last() =~= v.drop_last());
        assert(ext_map(u) =~= ext_map(v).insert(e.0@, value_view(e.1)));
    } else {
        assert(u.drop_last() =~= v.drop_last().update(i, e));
        assert forall|j: int| i < j < v.drop_last().len() implies #[trigger] v.drop_last()[j].0@
            != e.0@ by {
            assert(v.drop_last()[j] == v[j]);
        }
        lemma_ext_map_update(v.drop_last(), i, e);
        assert(v.last().0@ != e.0@);
        assert(ext_map(u) =~= ext_map(v).insert(e.0@, value_view(e.1)));
    }
}

proof fn lemma_key_position(v: Seq<(String, ExtendedValue)>, k: Seq<char>)
    ensures
        match key_position(v, k) {
            Some(i) => 0 <= i < v.len() && v[i].0@ == k && forall|j: int|
                i < j < v.len() ==> #[trigger] v[j].0@ != k,
            None => !has_key(v, k),
        },
    decreases v.len(),
{
    if v.len() > 0 && v.last().0@ != k {
        lemma_key_position(v.drop_last(), k);
        if let Some(i) = key_position(v, k) {
            assert forall|j: int| i < j < v.len() implies #[trigger] v[j].0@ != k by {
                if j < v.len() - 1 {
                    assert(v.drop_last()[j] == v[j]);
                }
            }
        }
        if has_key(v, k) {
            let i = choose|i: int| 0 <= i < v.len() && #[trigger] v[i].0@ == k;
            assert(i < v.len() - 1);
            assert(v.drop_last()[i].0@ == k);
        }
    }
}

fn same_text(a: &str, b: &str) -> (r: bool)
    ensures
        r == (a@ == b@),
{
    let x = String::from_str(a);
    let y = String::from_str(b);
    x == y
}

impl FileMetadata {
    /// Well-formed metadata: no extended key occurs twice.
    pub open spec fn wf(&self) -> bool {
        keys_distinct(self.extended@)
    }
}

impl Default for FileMetadata {
    /// No file name, origin, size or extended field.
    fn default() -> (m: Self)
        ensures
            m.filename is None,
            m.origin is None,
            m.filesize is None,
            m.extended@.len() == 0,
            m.wf(),
    {
        FileMetadata { filename: None, origin: None, filesize: None, extended: Vec::new() }
    }
}

impl FileMetadata {
    /// Sets the extended field `name` to `value`: an existing field of that name is replaced
    /// in place, else the field is added at the end.
    pub fn set_field(&mut self, name: String, value: ExtendedValue)
        ensures
            ext_map(final(self).extended@) == ext_map(old(self).extended@).insert(
                name@,
                value_view(value),
            ),
            match key_position(old(self).extended@, name@) {
                Some(i) => final(self).extended@.len() == old(self).extended@.len()
                    && final(self).extended@[i].0@ == name@
                    && final(self).extended@[i].1 == value
                    && forall|j: int|
                    0 <= j < old(self).extended@.len() && j != i ==> #[trigger] final(self).extended@[j]
                        == old(self).extended@[j],
                None => final(self).extended@.len() == old(self).extended@.len() + 1
                    && final(self).extended@.last().0@ == name@
                    && final(self).extended@.last().1 == value
                    && final(self).extended@.drop_last() == old(self).extended@,
            },
            old(self).wf() ==> final(self).wf(),
            final(self).filename == old(self).filename,
            final(self).origin == old(self).origin,
            final(self).filesize == old(self).filesize,
    {
        let ghost before = self.extended@;
        proof {
            lemma_key_position(before, name@);
        }
        let mut i: usize = self.extended.len();
        let mut found = false;
        assert(before.subrange(0, i as int) =~= before);
        while i > 0 && !found
            invariant
                i <= before.len(),
                self.extended@ == before,
                found ==> i > 0 && key_position(before, name@) == Some(i - 1),
                !found ==> key_position(before, name@) == key_position(
                    before.subrange(0, i as int),
                    name@,
                ),
            decreases i + if found { 0int } else { 1int },
        {
            let ghost cur = before.subrange(0, i as int);
            if same_text(self.extended[i - 1].0.as_str(), name.as_str()) {
                found = true;
            } else {
                assert(cur.drop_last() =~= before.subrange(0, i - 1));
                i = i - 1;
            }
        }
        if !found {
            assert(key_position(before.subrange(0, 0), name@) is None);
            let ghost entry = (name, value);
            self.extended.push((name, value));
            assert(self.extended@.drop_last() =~= before);
            assert(ext_map(self.extended@) == ext_map(before).insert(entry.0@, value_view(entry.1)));
            proof {
                if keys_distinct(before) {
                    assert forall|a: int, b: int|
                        0 <= a < b < self.extended@.len() implies #[trigger] self.extended@[a].0@
                        != #[trigger] self.extended@[b].0@ by {
                        if b == before.len() {
                            assert(self.extended@[a] == before[a]);
                        } else {
                            assert(self.extended@[a] == before[a]);
                            assert(self.extended@[b] == before[b]);
                        }
                    }
                }
            }
        } else {
            let k: usize = i - 1;
            let ghost entry = (name, value);
            self.extended.set(k, (name, value));
            proof {
                lemma_ext_map_update(before, k as int, entry);
            }
            proof {
                if keys_distinct(before) {
                    assert forall|a: int, b: int|
                        0 <= a < b < self.extended@.len() implies #[trigger] self.extended@[a].0@
                        != #[trigger] self.extended@[b].0@ by {
                        if a == k {
                            assert(before[a].0@ == self.extended@[a].0@);
                        } else if b == k {
                            assert(before[b].0@ == self.extended@[b].0@);
                        }
                    }
                }
            }
        }
    }

    /// Sets the extended field `name` to the text `text` (see `set_field`).
    pub fn set_text_field(&mut self, name: String, text: String)
        ensures
            ext_map(final(self).extended@) == ext_map(old(self).extended@).insert(
                name@,
                (false, text@),
            ),
            old(self).wf() ==> final(self).wf(),
            final(self).filename == old(self).filename,
            final(self).origin == old(self).origin,
            final(self).filesize == old(self).filesize,
    {
        self.set_field(name, ExtendedValue::Text(text));
    }
}

} // verus!
