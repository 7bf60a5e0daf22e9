//! A fuzzing input: the workspace the language server opens and the messages
//! sent to it.
use vstd::prelude::*;
use vstd::string::StringSliceAdditionalSpecFns;

use crate::json_rpc::{decimal_chars, u64_to_string, usize_to_string};
use crate::message::LspMessage;
use crate::messages::LspMessageSequence;
use crate::mutators::{HasMutProp, PropMutator, SliceSwapMutator};
use crate::selection::{Position, Range};
use crate::text::str_eq;
use crate::uri::{
    path_from_virtual_uri, spec_path_from_virtual_uri, spec_virtual_uri_text, accepted_uri,
    virtual_uri_for_path,
};

verus! {

/// A node of a document's syntax tree: its grammar kind, the range it
/// spans, the index of its parent among the document's nodes, and whether
/// the parser marked it as an error or as missing.
#[derive(Debug, Clone, PartialEq, Eq, Hash)]
pub struct SyntaxNode {
    pub kind_id: u16,
    pub range: Range,
    pub parent: Option<usize>,
    pub has_error: bool,
    pub is_missing: bool,
}

/// A node that a highlight query captured: the highlight group and where the
/// node starts.
#[derive(Debug, Clone, PartialEq, Eq, Hash)]
pub struct HighlightCapture {
    pub group: String,
    pub start: Position,
}

/// A source file of the workspace: its LSP language id and its bytes, with
/// what the parser found in them: the nodes of the syntax tree in pre-order,
/// the highlight captures, and the start positions of the nodes grouped by
/// node signature.
#[derive(Debug, Clone, PartialEq, Eq, Hash)]
pub struct TextDocument {
    pub language_id: String,
    pub content: Vec<u8>,
    pub nodes: Vec<SyntaxNode>,
    pub highlights: Vec<HighlightCapture>,
    pub node_signatures: Vec<Vec<Position>>,
}

impl TextDocument {
    /// A document of which nothing is parsed yet.
    pub fn new(language_id: String, content: Vec<u8>) -> (r: Self)
        ensures
            r.language_id@ == language_id@,
            r.content@ == content@,
            r.nodes@.len() == 0,
            r.highlights@.len() == 0,
            r.node_signatures@.len() == 0,
    {
        TextDocument {
            language_id,
            content,
            nodes: Vec::new(),
            highlights: Vec::new(),
            node_signatures: Vec::new(),
        }
    }
}

/// A file of the workspace: a source file that the server is told about, or
/// a skeleton file (project configuration) written as it is.
#[derive(Debug, Clone, PartialEq, Eq, Hash)]
pub enum WorkspaceEntry {
    SourceFile(TextDocument),
    Skeleton(Vec<u8>),
}

impl WorkspaceEntry {
    pub fn as_source_file(&self) -> (r: Option<&TextDocument>)
        ensures
            r == (match *self {
                WorkspaceEntry::SourceFile(doc) => Some(&doc),
                WorkspaceEntry::Skeleton(_) => None,
            }),
    {
        match self {
            WorkspaceEntry::SourceFile(doc) => Some(doc),
            WorkspaceEntry::Skeleton(_) => None,
        }
    }

    pub fn as_source_file_mut(&mut self) -> (r: Option<&mut TextDocument>)
        ensures
            match *old(self) {
                WorkspaceEntry::SourceFile(doc) => r matches Some(d) && *d == doc && *final(self)
                    == WorkspaceEntry::SourceFile(*final(d)),
                WorkspaceEntry::Skeleton(bytes) => r is None && *final(self) == WorkspaceEntry::Skeleton(
                    bytes,
                ),
            },
    {
        match self {
            WorkspaceEntry::SourceFile(doc) => Some(doc),
            WorkspaceEntry::Skeleton(_) => None,
        }
    }

    pub fn as_skeleton(&self) -> (r: Option<&[u8]>)
        ensures
            match *self {
                WorkspaceEntry::SourceFile(_) => r is None,
                WorkspaceEntry::Skeleton(bytes) => r matches Some(b) && b@ == bytes@,
            },
    {
        match self {
            WorkspaceEntry::SourceFile(_) => None,
            WorkspaceEntry::Skeleton(bytes) => Some(bytes.as_slice()),
        }
    }

    pub fn as_skeleton_mut(&mut self) -> (r: Option<&mut Vec<u8>>)
        ensures
            match *old(self) {
                WorkspaceEntry::SourceFile(doc) => r is None && *final(self) == WorkspaceEntry::SourceFile(
                    doc,
                ),
                WorkspaceEntry::Skeleton(bytes) => r matches Some(b) && *b == bytes && *final(self)
                    == WorkspaceEntry::Skeleton(*final(b)),
            },
    {
        match self {
            WorkspaceEntry::SourceFile(_) => None,
            WorkspaceEntry::Skeleton(bytes) => Some(bytes),
        }
    }

    /// Size of the entry in bytes.
    pub fn len(&self) -> (r: usize)
        ensures
            r == (match *self {
                WorkspaceEntry::SourceFile(doc) => doc.content.len(),
                WorkspaceEntry::Skeleton(bytes) => bytes.len(),
            }),
    {
        match self {
            WorkspaceEntry::SourceFile(doc) => doc.content.len(),
            WorkspaceEntry::Skeleton(bytes) => bytes.len(),
        }
    }
}

/// A file of the workspace with its path relative to the workspace root.
#[derive(Debug, Clone, PartialEq, Eq, Hash)]
pub struct WorkspaceFile {
    pub path: String,
    pub entry: WorkspaceEntry,
}

/// A fuzzing input.
#[derive(Debug)]
pub struct LspInput {
    pub messages: LspMessageSequence,
    pub workspace: Vec<WorkspaceFile>,
}

/// Index of the first file of `files` at `path`.
pub open spec fn find_file(files: Seq<WorkspaceFile>, path: Seq<char>) -> Option<int>
    decreases files.len(),
{
    if files.len() == 0 {
        None
    } else if files[0].path@ == path {
        Some(0)
    } else {
        match find_file(files.drop_first(), path) {
            Some(i) => Some(i + 1),
            None => None,
        }
    }
}

proof fn lemma_find_file_index(files: Seq<WorkspaceFile>, path: Seq<char>, k: int)
    requires
        0 <= k <= files.len(),
        forall|j: int| 0 <= j < k ==> files[j].path@ != path,
        k < files.len() ==> files[k].path@ == path,
    ensures
        find_file(files, path) == (if k < files.len() {
            Some(k)
        } else {
            None::<int>
        }),
    decreases files.len(),
{
    if files.len() > 0 && k > 0 {
        let t = files.drop_first();
        assert forall|j: int| 0 <= j < k - 1 implies t[j].path@ != path by {
            assert(t[j] == files[j + 1]);
        }
        lemma_find_file_index(t, path, k - 1);
    }
}

/// The source files of a workspace, in order, each with the text of its
/// virtual URI.
pub open spec fn spec_opened_documents(files: Seq<WorkspaceFile>) -> Seq<(Seq<char>, TextDocument)>
    decreases files.len(),
{
    if files.len() == 0 {
        Seq::empty()
    } else {
        let rest = spec_opened_documents(files.drop_last());
        match files.last().entry {
            WorkspaceEntry::SourceFile(doc) => rest.push((spec_virtual_uri_text(files.last().path@), doc)),
            WorkspaceEntry::Skeleton(_) => rest,
        }
    }
}

/// Every source file of the workspace has a path that makes a valid URI.
pub open spec fn source_paths_valid(files: Seq<WorkspaceFile>) -> bool {
    forall|i: int|
        0 <= i < files.len() && (#[trigger] files[i]).entry is SourceFile ==> accepted_uri(
            spec_virtual_uri_text(files[i].path@),
        )
}

impl LspInput {
    pub fn name_prefix() -> (r: &'static str)
        ensures
            r@ == "input_"@,
    {
        "input_"
    }

    /// The file name of an input in a corpus: `input_<id>` for a stored test
    /// case, `input_h_<hash>` from the input's hash otherwise.
    pub fn generate_name(id: Option<usize>, input_hash: u64) -> (r: String)
        ensures
            r@ == "input_"@ + match id {
                Some(n) => decimal_chars(n as nat),
                None => "h_"@ + decimal_chars(input_hash as nat),
            },
    {
        let mut name = String::from_str("input_");
        match id {
            Some(n) => {
                let digits = usize_to_string(n);
                name.append(digits.as_str());
            },
            None => {
                name.append("h_");
                let digits = u64_to_string(input_hash);
                name.append(digits.as_str());
            },
        }
        name
    }

    /// The documents the server is told about when a session starts: each
    /// source file with its virtual URI, in workspace order; `None` when a
    /// source file's path does not make a valid URI.
    pub fn opened_documents(&self) -> (r: Option<Vec<(String, &TextDocument)>>)
        ensures
            match r {
                Some(docs) => source_paths_valid(self.workspace@) && docs@.len() == spec_opened_documents(
                    self.workspace@,
                ).len() && forall|k: int|
                    0 <= k < docs@.len() ==> (#[trigger] docs@[k]).0@ == spec_opened_documents(
                        self.workspace@,
                    )[k].0 && *docs@[k].1 == spec_opened_documents(self.workspace@)[k].1,
                None => !source_paths_valid(self.workspace@),
            },
    {
        let mut docs: Vec<(String, &TextDocument)> = Vec::new();
        let mut i: usize = 0;
        while i < self.workspace.len()
            invariant
                i <= self.workspace@.len(),
                source_paths_valid(self.workspace@.take(i as int)),
                docs@.len() == spec_opened_documents(self.workspace@.take(i as int)).len(),
                forall|k: int|
                    0 <= k < docs@.len() ==> (#[trigger] docs@[k]).0@ == spec_opened_documents(
                        self.workspace@.take(i as int),
                    )[k].0 && *docs@[k].1 == spec_opened_documents(self.workspace@.take(i as int))[k].1,
            decreases self.workspace.len() - i,
        {
            let ghost prefix = self.workspace@.take(i as int);
            let ghost next = self.workspace@.take(i + 1);
            assert(next.drop_last() =~= prefix);
            assert(next.last() == self.workspace@[i as int]);
            let file = &self.workspace[i];
            match file.entry.as_source_file() {
                Some(doc) => match virtual_uri_for_path(file.path.as_str()) {
                    Some(uri) => {
                        docs.push((uri, doc));
                        proof {
                            assert forall|j: int| 0 <= j < next.len() && (#[trigger] next[j]).entry is SourceFile implies accepted_uri(
                                spec_virtual_uri_text(next[j].path@),
                            ) by {
                                if j < i {
                                    assert(next[j] == prefix[j]);
                                }
                            }
                        }
                    },
                    None => {
                        proof {
                            assert(self.workspace@[i as int].entry is SourceFile);
                        }
                        return None;
                    },
                },
                None => {
                    proof {
                        assert forall|j: int| 0 <= j < next.len() && (#[trigger] next[j]).entry is SourceFile implies accepted_uri(
                            spec_virtual_uri_text(next[j].path@),
                        ) by {
                            if j < i {
                                assert(next[j] == prefix[j]);
                            }
                        }
                    }
                },
            }
            i = i + 1;
        }
        assert(self.workspace@.take(self.workspace@.len() as int) =~= self.workspace@);
        Some(docs)
    }

    /// The source file that a virtual URI names, if the workspace holds one there.
    pub fn get_text_document(&self, uri: &str) -> (r: Option<&TextDocument>)
        requires
            spec_path_from_virtual_uri(uri@) is Some,
        ensures
            r == (match find_file(self.workspace@, spec_path_from_virtual_uri(uri@)->0) {
                Some(i) => match self.workspace@[i].entry {
                    WorkspaceEntry::SourceFile(doc) => Some(&doc),
                    WorkspaceEntry::Skeleton(_) => None,
                },
                None => None,
            }),
    {
        let path = match path_from_virtual_uri(uri) {
            Some(p) => p,
            None => {
                return None;
            },
        };
        let mut i: usize = 0;
        while i < self.workspace.len()
            invariant
                i <= self.workspace@.len(),
                spec_path_from_virtual_uri(uri@) == Some(path@),
                forall|j: int| 0 <= j < i ==> self.workspace@[j].path@ != path@,
            decreases self.workspace.len() - i,
        {
            if str_eq(self.workspace[i].path.as_str(), path) {
                proof {
                    lemma_find_file_index(self.workspace@, path@, i as int);
                }
                return self.workspace[i].entry.as_source_file();
            }
            i = i + 1;
        }
        proof {
            lemma_find_file_index(self.workspace@, path@, i as int);
        }
        None
    }
}

/// The project file that makes rust-analyzer start faster on a workspace
/// of one library file.
pub const RUST_PROJECT_JSON: &'static str = "
{
    \"sysroot_src\": \"/root/.rustup/toolchains/stable-x86_64-unknown-linux-gnu/lib/rustlib/src/rust/library\",
    \"crates\": [
        {
            \"root_module\": \"src/lib.rs\",
            \"edition\": \"2021\",
            \"deps\": [],
        },
    ]
}
";

/// The workspace an input starts with for a generated document: for Rust, a
/// `rust-project.json` beside `src/lib.rs`; for any other language, the
/// document alone as `main.<extension>`.
pub fn workspace_for_document(doc: TextDocument, extension: &str) -> (r: Vec<WorkspaceFile>)
    ensures
        doc.language_id@ == "rust"@ ==> {
            &&& r@.len() == 2
            &&& r@[0].path@ == "rust-project.json"@
            &&& r@[0].entry matches WorkspaceEntry::Skeleton(b) && b@ == RUST_PROJECT_JSON.spec_bytes()
            &&& r@[1].path@ == "src/lib.rs"@
            &&& r@[1].entry == WorkspaceEntry::SourceFile(doc)
        },
        doc.language_id@ != "rust"@ ==> {
            &&& r@.len() == 1
            &&& r@[0].path@ == "main."@ + extension@
            &&& r@[0].entry == WorkspaceEntry::SourceFile(doc)
        },
{
    let mut files: Vec<WorkspaceFile> = Vec::new();
    if str_eq(doc.language_id.as_str(), "rust") {
        let mut project: Vec<u8> = Vec::new();
        crate::json_rpc::append_bytes(&mut project, RUST_PROJECT_JSON.as_bytes());
        assert(project@ =~= RUST_PROJECT_JSON.spec_bytes());
        files.push(WorkspaceFile { path: String::from_str("rust-project.json"), entry: WorkspaceEntry::Skeleton(project) });
        files.push(WorkspaceFile { path: String::from_str("src/lib.rs"), entry: WorkspaceEntry::SourceFile(doc) });
    } else {
        let mut path = String::from_str("main.");
        path.append(extension);
        files.push(WorkspaceFile { path, entry: WorkspaceEntry::SourceFile(doc) });
    }
    files
}

/// Mutators that reorder the messages of an input: two random messages swap
/// places.
pub type SwapRequests = PropMutator<SliceSwapMutator<LspMessage>, 0>;

impl HasMutProp<0> for LspInput {
    type PropType = Vec<LspMessage>;

    /// The messages of the input.
    open spec fn prop(&self) -> Vec<LspMessage> {
        self.messages.spec_vec()
    }

    fn get_field(&mut self) -> (r: &mut Vec<LspMessage>) {
        self.messages.as_mut_vec()
    }
}

impl LspInput {
    /// `AHasher::default()` of ahash fed with the input's workspace, finished.
    /// Nothing is stated of the value: it rests on the hasher's keys and
    /// algorithm, which depend on how ahash was built and on the machine.
    #[verifier::external_body]
    pub fn workspace_hash(&self) -> u64 {
        let mut hasher = ahash::AHasher::default();
        std::hash::Hash::hash(&self.workspace, &mut hasher);
        std::hash::Hasher::finish(&hasher)
    }
}

/// `root` joined with the relative path `name`: with a `/` between them
/// unless `root` is empty or already ends with one.
pub open spec fn spec_join_path(root: Seq<char>, name: Seq<char>) -> Seq<char> {
    if root.len() == 0 || root.last() == '/' {
        root + name
    } else {
        root + seq!['/'] + name
    }
}

/// The directory under `workspace_root` that the workspace of an input with
/// hash `input_hash` is written to.
pub open spec fn spec_workspace_dir(workspace_root: Seq<char>, input_hash: u64) -> Seq<char> {
    spec_join_path(workspace_root, crate::uri::workspace_dir_prefix_text() + decimal_chars(input_hash as nat))
}

/// The directory under `workspace_root` for an input with hash `input_hash`.
pub fn workspace_dir(workspace_root: &str, input_hash: u64) -> (r: String)
    ensures
        r@ == spec_workspace_dir(workspace_root@, input_hash),
{
    let mut out = String::from_str(workspace_root);
    if workspace_root.unicode_len() > 0 && !crate::text::ends_with_char(workspace_root, '/') {
        let slash = "/";
        proof {
            reveal_strlit("/");
        }
        out.append(slash);
    }
    let prefix = crate::uri::workspace_dir_prefix();
    out.append(prefix);
    let digits = u64_to_string(input_hash);
    out.append(digits.as_str());
    proof {
        let name = crate::uri::workspace_dir_prefix_text() + decimal_chars(input_hash as nat);
        if workspace_root@.len() == 0 || workspace_root@.last() == '/' {
            assert(out@ =~= workspace_root@ + name);
        } else {
            assert(out@ =~= workspace_root@ + seq!['/'] + name);
        }
    }
    out
}

/// Where the bytes of inputs are made: the directory under which the
/// workspace of each input is written.
pub struct LspInputBytesConverter {
    pub workspace_root: String,
}

impl LspInputBytesConverter {
    pub fn new(workspace_root: String) -> (r: Self)
        ensures
            r.workspace_root@ == workspace_root@,
    {
        LspInputBytesConverter { workspace_root }
    }

    /// The directory the workspace of `input` is written to: named after the
    /// input's hash under the root, whatever that hash is.
    pub fn workspace_dir_of(&self, input: &LspInput) -> (r: String)
        ensures
            exists|input_hash: u64| r@ == spec_workspace_dir(self.workspace_root@, input_hash),
    {
        let input_hash = input.workspace_hash();
        workspace_dir(self.workspace_root.as_str(), input_hash)
    }
}

/// When every source path makes a URI, so does the URI of each opened document.
pub proof fn lemma_opened_uris_accepted(files: Seq<WorkspaceFile>, k: int)
    requires
        source_paths_valid(files),
        0 <= k < spec_opened_documents(files).len(),
    ensures
        accepted_uri(spec_opened_documents(files)[k].0),
    decreases files.len(),
{
    let rest = files.drop_last();
    assert(source_paths_valid(rest)) by {
        assert forall|i: int| 0 <= i < rest.len() && (#[trigger] rest[i]).entry is SourceFile implies accepted_uri(
            spec_virtual_uri_text(rest[i].path@),
        ) by {
            assert(rest[i] == files[i]);
        }
    }
    let opened_rest = spec_opened_documents(rest);
    if k < opened_rest.len() {
        lemma_opened_uris_accepted(rest, k);
    } else {
        assert(files[files.len() - 1] == files.last());
    }
}

/// The text of `bytes` read as UTF-8, with each invalid sequence replaced.
pub uninterp spec fn utf8_lossy(bytes: Seq<u8>) -> Seq<char>;

/// `String::from_utf8_lossy`, made an owned `String`.
#[verifier::external_body]
fn text_lossy(bytes: &[u8]) -> (r: String)
    ensures
        r@ == utf8_lossy(bytes@),
{
    String::from_utf8_lossy(bytes).into_owned()
}

/// What the `textDocument/didOpen` notification of a source file carries:
/// its virtual URI, its language, version 1 and its text.
#[derive(Debug)]
pub struct DidOpenContents {
    pub uri: String,
    pub language_id: String,
    pub version: i32,
    pub text: String,
}

/// The `didOpen` contents owed to the `k`-th opened document.
pub open spec fn did_open_of(docs: Seq<(Seq<char>, TextDocument)>, k: int, c: DidOpenContents) -> bool {
    &&& c.uri@ == docs[k].0
    &&& c.language_id@ == docs[k].1.language_id@
    &&& c.version == 1
    &&& c.text@ == utf8_lossy(docs[k].1.content@)
}

impl LspInput {
    /// The contents of the `didOpen` notification of each source file, in
    /// workspace order; `None` when a source file's path makes no URI.
    pub fn did_open_contents(&self) -> (r: Option<Vec<DidOpenContents>>)
        ensures
            match r {
                Some(cs) => source_paths_valid(self.workspace@) && cs@.len() == spec_opened_documents(
                    self.workspace@,
                ).len() && forall|k: int|
                    0 <= k < cs@.len() ==> did_open_of(spec_opened_documents(self.workspace@), k, #[trigger] cs@[k]),
                None => !source_paths_valid(self.workspace@),
            },
    {
        let docs = match self.opened_documents() {
            Some(docs) => docs,
            None => {
                return None;
            },
        };
        let ghost opened = spec_opened_documents(self.workspace@);
        let mut out: Vec<DidOpenContents> = Vec::new();
        let mut k: usize = 0;
        while k < docs.len()
            invariant
                k <= docs@.len(),
                docs@.len() == opened.len(),
                opened == spec_opened_documents(self.workspace@),
                forall|j: int|
                    0 <= j < docs@.len() ==> (#[trigger] docs@[j]).0@ == opened[j].0 && *docs@[j].1 == opened[j].1,
                out@.len() == k,
                forall|j: int| 0 <= j < k ==> did_open_of(opened, j, #[trigger] out@[j]),
            decreases docs.len() - k,
        {
            let (uri, doc) = &docs[k];
            let c = DidOpenContents {
                uri: uri.clone(),
                language_id: doc.language_id.clone(),
                version: 1,
                text: text_lossy(doc.content.as_slice()),
            };
            assert(did_open_of(opened, k as int, c));
            out.push(c);
            k = k + 1;
        }
        Some(out)
    }
}

} // verus!
