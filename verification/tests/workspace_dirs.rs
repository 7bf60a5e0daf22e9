use lsp_fuzz::lsp_input::{workspace_dir, LspInput, LspInputBytesConverter, WorkspaceEntry, WorkspaceFile};
use lsp_fuzz::messages::LspMessageSequence;

fn joined(root: &str, name: &str) -> String {
    std::path::Path::new(root).join(name).to_str().unwrap().to_owned()
}

#[test]
fn workspace_dir_joins_like_a_path() {
    assert_eq!(workspace_dir("/tmp/ws", 42), "/tmp/ws/lsp-fuzz-workspace_42");
    assert_eq!(workspace_dir("/tmp/ws/", 42), "/tmp/ws/lsp-fuzz-workspace_42");
    assert_eq!(workspace_dir("", 7), "lsp-fuzz-workspace_7");
    assert_eq!(workspace_dir("/", u64::MAX), "/lsp-fuzz-workspace_18446744073709551615");
    for root in ["/tmp/ws", "/tmp/ws/", "", "/", "relative/dir"] {
        for hash in [0u64, 1, 1234567890] {
            assert_eq!(workspace_dir(root, hash), joined(root, &format!("lsp-fuzz-workspace_{hash}")));
        }
    }
}

#[test]
fn converter_names_the_directory_after_the_workspace_hash() {
    let input = LspInput {
        messages: LspMessageSequence::new(),
        workspace: vec![WorkspaceFile {
            path: "main.c".to_owned(),
            entry: WorkspaceEntry::Skeleton(b"int main(){}".to_vec()),
        }],
    };
    let same = LspInput {
        messages: LspMessageSequence::new(),
        workspace: input.workspace.clone(),
    };
    assert_eq!(input.workspace_hash(), same.workspace_hash());
    let converter = LspInputBytesConverter::new("/work".to_owned());
    let dir = converter.workspace_dir_of(&input);
    assert_eq!(dir, workspace_dir("/work", input.workspace_hash()));
    assert!(dir.starts_with("/work/lsp-fuzz-workspace_"));
}
