//! The scratch workspace: a shared root directory from which each request
//! takes a uniquely named source file and artifact.
use vstd::prelude::*;

verus! {

/// Where the source file of request `id` lies under `root`.
pub open spec fn source_path_of(root: Seq<char>, id: Seq<char>) -> Seq<char> {
    root + "/temp_"@ + id + ".rs"@
}

/// Where the compiled artifact of request `id` lies under `root`.
pub open spec fn artifact_path_of(root: Seq<char>, id: Seq<char>) -> Seq<char> {
    root + "/temp_"@ + id
}

/// Where the file of a syntax check `id` lies under `root`.
pub open spec fn validation_path_of(root: Seq<char>, id: Seq<char>) -> Seq<char> {
    root + "/validate_"@ + id + ".rs"@
}

/// A character of the hyphenated lower-case form of a UUID.
pub open spec fn is_uuid_char(c: char) -> bool {
    ('0' <= c && c <= '9') || ('a' <= c && c <= 'f') || c == '-'
}

/// Relies on `uuid::Builder::from_random_bytes` and `into_uuid`, which set
/// the version and variant bits of the given bytes and cannot fail, and on
/// `Uuid`'s `Display`, which writes the hyphenated lower-case form: 36
/// characters, hex digits and hyphens.
#[verifier::external_body]
fn request_id_from(random: [u8; 16]) -> (r: String)
    ensures
        r@.len() == 36,
        forall|i: int| 0 <= i < r@.len() ==> is_uuid_char(#[trigger] r@[i]),
{
    uuid::Builder::from_random_bytes(random).into_uuid().to_string()
}

/// The pair of paths that one request owns.
#[derive(Debug, Clone)]
pub struct ScratchEntry {
    pub id: String,
    pub source_path: String,
    pub artifact_path: String,
}

pub struct ScratchView {
    pub id: Seq<char>,
    pub source_path: Seq<char>,
    pub artifact_path: Seq<char>,
}

impl View for ScratchEntry {
    type V = ScratchView;

    open spec fn view(&self) -> ScratchView {
        ScratchView { id: self.id@, source_path: self.source_path@, artifact_path: self.artifact_path@ }
    }
}

/// The entry's paths are those of its id under `root`.
pub open spec fn entry_under(e: ScratchView, root: Seq<char>) -> bool {
    &&& e.source_path == source_path_of(root, e.id)
    &&& e.artifact_path == artifact_path_of(root, e.id)
}

/// Compiles and runs snippets inside one scratch root directory.
#[derive(Debug)]
pub struct RustCodeExecutor {
    temp_dir: String,
}

impl View for RustCodeExecutor {
    type V = Seq<char>;

    closed spec fn view(&self) -> Seq<char> {
        self.temp_dir@
    }
}

impl RustCodeExecutor {
    /// An executor over the scratch root `temp_dir`, which the caller has
    /// already created.
    pub fn new(temp_dir: String) -> (r: Self)
        ensures
            r@ == temp_dir@,
    {
        RustCodeExecutor { temp_dir }
    }

    /// The scratch root.
    pub fn temp_dir(&self) -> (r: &str)
        ensures
            r@ == self@,
    {
        self.temp_dir.as_str()
    }

    /// The entry of request `id`.
    pub fn entry_for(&self, id: &str) -> (r: ScratchEntry)
        ensures
            r@.id == id@,
            entry_under(r@, self@),
    {
        let mut source_path = self.temp_dir.clone();
        source_path.append("/temp_");
        source_path.append(id);
        let artifact_path = source_path.clone();
        source_path.append(".rs");
        ScratchEntry { id: String::from_str(id), source_path, artifact_path }
    }

    /// A new entry whose id is the random version-4 UUID made of `random`.
    pub fn allocate(&self, random: [u8; 16]) -> (r: ScratchEntry)
        ensures
            r@.id.len() == 36,
            forall|i: int| 0 <= i < r@.id.len() ==> is_uuid_char(#[trigger] r@.id[i]),
            entry_under(r@, self@),
    {
        let id = request_id_from(random);
        self.entry_for(id.as_str())
    }

    /// The file that a syntax check with id `id` writes.
    pub fn validation_path_for(&self, id: &str) -> (r: String)
        ensures
            r@ == validation_path_of(self@, id@),
    {
        let mut p = self.temp_dir.clone();
        p.append("/validate_");
        p.append(id);
        p.append(".rs");
        p
    }

    /// The file of a new syntax check, under the random version-4 UUID made
    /// of `random`.
    pub fn allocate_validation_path(&self, random: [u8; 16]) -> (r: String)
        ensures
            exists|id: Seq<char>| id.len() == 36 && r@ == validation_path_of(self@, id),
    {
        let id = request_id_from(random);
        self.validation_path_for(id.as_str())
    }
}

/// Two requests with distinct ids of one length never share a path: neither
/// source nor artifact of one is a path of the other, and within one request
/// source and artifact differ.
pub proof fn lemma_scratch_paths_disjoint(root: Seq<char>, a: Seq<char>, b: Seq<char>)
    requires
        a != b,
        a.len() == b.len(),
    ensures
        source_path_of(root, a) != source_path_of(root, b),
        artifact_path_of(root, a) != artifact_path_of(root, b),
        source_path_of(root, a) != artifact_path_of(root, b),
        artifact_path_of(root, a) != source_path_of(root, b),
        source_path_of(root, a) != artifact_path_of(root, a),
{
    reveal_strlit("/temp_");
    reveal_strlit(".rs");
    let k: int = root.len() + 6int;
    let n: int = a.len() as int;
    if source_path_of(root, a) == source_path_of(root, b) {
        assert(source_path_of(root, a).subrange(k, k + n) =~= a);
        assert(source_path_of(root, b).subrange(k, k + n) =~= b);
    }
    if artifact_path_of(root, a) == artifact_path_of(root, b) {
        assert(artifact_path_of(root, a).subrange(k, k + n) =~= a);
        assert(artifact_path_of(root, b).subrange(k, k + n) =~= b);
    }
    assert(source_path_of(root, a).len() == artifact_path_of(root, b).len() + 3);
    assert(artifact_path_of(root, a).len() + 3 == source_path_of(root, b).len());
    assert(source_path_of(root, a).len() == artifact_path_of(root, a).len() + 3);
}

} // verus!
