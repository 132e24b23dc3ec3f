use vstd::prelude::*;
use vstd::string::StringExecFns;

use crate::encode::{base64_encode, base64_of, blob_path, blob_path_view, utf8_lossy_decode,
    utf8_lossy_of};
use crate::metadata::{MetaView, PackageMetadata};

verus! {

/// One multipart field, already drained: its field name and its raw bytes.
pub struct Part {
    pub name: String,
    pub data: Vec<u8>,
}

impl View for Part {
    type V = (Seq<char>, Seq<u8>);

    open spec fn view(&self) -> (Seq<char>, Seq<u8>) {
        (self.name@, self.data@)
    }
}

/// A blob-store write the assembler asks for: store `data` at `path`. The
/// caller must perform it, and abort the upload if it fails, before the
/// metadata record is committed.
pub struct BlobWrite {
    pub path: String,
    pub data: Vec<u8>,
}

impl View for BlobWrite {
    type V = (Seq<char>, Seq<u8>);

    open spec fn view(&self) -> (Seq<char>, Seq<u8>) {
        (self.path@, self.data@)
    }
}

/// How one named part changes the record under assembly. `id`, `title` and
/// `version` take the part's bytes read as lossy UTF-8; `thumbnail` takes the
/// base64 rendering of the bytes; `file` records the blob location derived
/// from the id assigned so far; any other name is ignored.
pub open spec fn step_meta(m: MetaView, name: Seq<char>, data: Seq<u8>) -> MetaView {
    if name == "id"@ {
        MetaView { id: utf8_lossy_of(data), ..m }
    } else if name == "title"@ {
        MetaView { title: utf8_lossy_of(data), ..m }
    } else if name == "version"@ {
        MetaView { version: utf8_lossy_of(data), ..m }
    } else if name == "thumbnail"@ {
        MetaView { thumbnail: base64_of(data), ..m }
    } else if name == "file"@ {
        MetaView { file_path: blob_path_view(m.id), ..m }
    } else {
        m
    }
}

/// The blob write one named part asks for: only a `file` part writes, at the
/// location derived from the id assigned so far.
pub open spec fn step_write(m: MetaView, name: Seq<char>, data: Seq<u8>) -> Option<
    (Seq<char>, Seq<u8>),
> {
    if name == "file"@ {
        Some((blob_path_view(m.id), data))
    } else {
        None
    }
}

/// The record assembled from `parts`, taken strictly in arrival order,
/// starting from the all-empty record.
pub open spec fn assembled_meta(parts: Seq<(Seq<char>, Seq<u8>)>) -> MetaView
    decreases parts.len(),
{
    if parts.len() == 0 {
        MetaView::init()
    } else {
        step_meta(assembled_meta(parts.drop_last()), parts.last().0, parts.last().1)
    }
}

/// The blob writes `parts` ask for, in arrival order.
pub open spec fn assembled_writes(parts: Seq<(Seq<char>, Seq<u8>)>) -> Seq<(Seq<char>, Seq<u8>)>
    decreases parts.len(),
{
    if parts.len() == 0 {
        Seq::<(Seq<char>, Seq<u8>)>::empty()
    } else {
        match step_write(assembled_meta(parts.drop_last()), parts.last().0, parts.last().1) {
            Some(w) => assembled_writes(parts.drop_last()).push(w),
            None => assembled_writes(parts.drop_last()),
        }
    }
}

pub open spec fn parts_view(s: Seq<Part>) -> Seq<(Seq<char>, Seq<u8>)> {
    s.map_values(|p: Part| p@)
}

pub open spec fn writes_view(s: Seq<BlobWrite>) -> Seq<(Seq<char>, Seq<u8>)> {
    s.map_values(|w: BlobWrite| w@)
}

/// The five field names the assembler recognizes are pairwise distinct: their
/// lengths already differ.
pub proof fn lemma_field_names_distinct()
    ensures
        "id"@ != "title"@,
        "id"@ != "version"@,
        "id"@ != "thumbnail"@,
        "id"@ != "file"@,
        "title"@ != "version"@,
        "title"@ != "thumbnail"@,
        "title"@ != "file"@,
        "version"@ != "thumbnail"@,
        "version"@ != "file"@,
        "thumbnail"@ != "file"@,
{
    reveal_strlit("id");
    reveal_strlit("title");
    reveal_strlit("version");
    reveal_strlit("thumbnail");
    reveal_strlit("file");
    assert("id"@.len() == 2);
    assert("title"@.len() == 5);
    assert("version"@.len() == 7);
    assert("thumbnail"@.len() == 9);
    assert("file"@.len() == 4);
}

/// True of two string slices with equal contents.
fn str_equal(a: &str, b: &str) -> (r: bool)
    ensures
        r == (a@ == b@),
{
    let sa = String::from_str(a);
    let sb = String::from_str(b);
    sa == sb
}

/// Consumes named multipart fields one at a time, in arrival order, and
/// accumulates them into one metadata record. A `file` part asks for a blob
/// write at a location derived from whatever id has been assigned so far, so
/// clients must send `id` before `file`.
pub struct UploadAssembler {
    meta: PackageMetadata,
}

impl View for UploadAssembler {
    type V = MetaView;

    closed spec fn view(&self) -> MetaView {
        self.meta@
    }
}

impl UploadAssembler {
    /// Starts from the all-empty record.
    pub fn new() -> (r: UploadAssembler)
        ensures
            r@ == MetaView::init(),
    {
        UploadAssembler { meta: PackageMetadata::new_empty() }
    }

    /// Folds one drained part into the record, and returns the blob write the
    /// part asks for, if any. A part whose name is not one of the five known
    /// fields is silently ignored.
    pub fn apply_part(&mut self, part: Part) -> (w: Option<BlobWrite>)
        ensures
            final(self)@ == step_meta(old(self)@, part@.0, part@.1),
            match w {
                Some(bw) => step_write(old(self)@, part@.0, part@.1) == Some(bw@),
                None => step_write(old(self)@, part@.0, part@.1) is None,
            },
    {
        proof {
            lemma_field_names_distinct();
        }
        let name = part.name.as_str();
        if str_equal(name, "id") {
            self.meta.id = utf8_lossy_decode(&part.data);
            proof {
                assert(self@ =~= step_meta(old(self)@, part@.0, part@.1));
            }
            None
        } else if str_equal(name, "title") {
            self.meta.title = utf8_lossy_decode(&part.data);
            proof {
                assert(self@ =~= step_meta(old(self)@, part@.0, part@.1));
            }
            None
        } else if str_equal(name, "version") {
            self.meta.version = utf8_lossy_decode(&part.data);
            proof {
                assert(self@ =~= step_meta(old(self)@, part@.0, part@.1));
            }
            None
        } else if str_equal(name, "thumbnail") {
            self.meta.thumbnail = base64_encode(&part.data);
            proof {
                assert(self@ =~= step_meta(old(self)@, part@.0, part@.1));
            }
            None
        } else if str_equal(name, "file") {
            let path = blob_path(&self.meta.id);
            self.meta.file_path = path.clone();
            proof {
                assert(self@ =~= step_meta(old(self)@, part@.0, part@.1));
            }
            Some(BlobWrite { path, data: part.data })
        } else {
            None
        }
    }

    /// Hands the assembled record out.
    pub fn finish(self) -> (m: PackageMetadata)
        ensures
            m@ == self@,
    {
        self.meta
    }
}

/// Assembles a whole upload whose parts were buffered first: folds every part
/// in arrival order and collects the blob writes the parts asked for.
pub fn assemble_parts(parts: Vec<Part>) -> (r: (PackageMetadata, Vec<BlobWrite>))
    ensures
        r.0@ == assembled_meta(parts_view(parts@)),
        writes_view(r.1@) == assembled_writes(parts_view(parts@)),
{
    let ghost all: Seq<(Seq<char>, Seq<u8>)> = parts_view(parts@);
    let mut rest = parts;
    let mut builder = UploadAssembler::new();
    let mut writes: Vec<BlobWrite> = Vec::new();
    let ghost mut done: int = 0;
    proof {
        assert(all.take(0) =~= Seq::<(Seq<char>, Seq<u8>)>::empty());
        assert(builder@ =~= assembled_meta(all.take(0)));
        assert(writes_view(writes@) =~= assembled_writes(all.take(0)));
    }
    while rest.len() > 0
        invariant
            0 <= done <= all.len(),
            rest@.len() == all.len() - done,
            forall|k: int| 0 <= k < rest@.len() ==> (#[trigger] rest@[k])@ == all[done + k],
            builder@ == assembled_meta(all.take(done)),
            writes_view(writes@) == assembled_writes(all.take(done)),
        decreases rest.len(),
    {
        let part = rest.remove(0);
        proof {
            assert(part@ == all[done]);
            assert(all.take(done + 1).drop_last() =~= all.take(done));
            assert(all.take(done + 1).last() == all[done]);
        }
        let w = builder.apply_part(part);
        if let Some(bw) = w {
            writes.push(bw);
        }
        proof {
            done = done + 1;
            assert(writes_view(writes@) =~= assembled_writes(all.take(done)));
        }
    }
    proof {
        assert(all.take(all.len() as int) =~= all);
    }
    (builder.finish(), writes)
}

} // verus!
