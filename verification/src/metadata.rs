use vstd::prelude::*;

verus! {

/// The mathematical value of one package's metadata row: five text fields.
#[verifier::ext_equal]
pub ghost struct MetaView {
    pub id: Seq<char>,
    pub title: Seq<char>,
    pub version: Seq<char>,
    pub thumbnail: Seq<char>,
    pub file_path: Seq<char>,
}

impl MetaView {
    /// A freshly initialized record: every field is the empty string, which is
    /// what an upload that omits a field leaves behind.
    pub open spec fn init() -> MetaView {
        MetaView {
            id: Seq::<char>::empty(),
            title: Seq::<char>::empty(),
            version: Seq::<char>::empty(),
            thumbnail: Seq::<char>::empty(),
            file_path: Seq::<char>::empty(),
        }
    }
}

/// One package's metadata record. `id` is the caller-assigned key; `thumbnail`
/// holds a text-safe encoding of the thumbnail bytes; `file_path` names where
/// the blob store keeps the archive bytes.
#[derive(Debug, Clone)]
pub struct PackageMetadata {
    pub id: String,
    pub title: String,
    pub version: String,
    pub thumbnail: String,
    pub file_path: String,
}

impl View for PackageMetadata {
    type V = MetaView;

    open spec fn view(&self) -> MetaView {
        MetaView {
            id: self.id@,
            title: self.title@,
            version: self.version@,
            thumbnail: self.thumbnail@,
            file_path: self.file_path@,
        }
    }
}

impl PackageMetadata {
    /// A record with every field empty, the state an upload starts from.
    pub fn new_empty() -> (r: PackageMetadata)
        ensures
            r@ == MetaView::init(),
    {
        let r = PackageMetadata {
            id: String::new(),
            title: String::new(),
            version: String::new(),
            thumbnail: String::new(),
            file_path: String::new(),
        };
        proof {
            assert(r@ =~= MetaView::init());
        }
        r
    }
}

} // verus!
