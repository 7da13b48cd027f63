use yukumo::types::{ArgValue, OperationCommand, Transaction};
use yukumo::txn::{attach_file_txn, create_block_txn, format_block_txn};

fn args_of(t: &Transaction, op: usize) -> Vec<(String, String)> {
    t.operations[op]
        .args
        .iter()
        .map(|(k, v)| {
            let shown = match v {
                ArgValue::Null => "null".to_string(),
                ArgValue::Bool(b) => b.to_string(),
                ArgValue::Number(n) => n.to_string(),
                ArgValue::Text(s) => format!("text:{s}"),
                ArgValue::Cell(s) => format!("cell:{s}"),
            };
            (k.clone(), shown)
        })
        .collect()
}

#[test]
fn create_block_txn_has_three_ordered_operations() {
    let t = create_block_txn("T1", "S", "P", "B", None);
    assert_eq!(t.id, "T1");
    assert_eq!(t.space_id, "S");
    assert!(t.debug.is_empty());
    assert_eq!(t.operations.len(), 3);

    assert_eq!(t.operations[0].command, OperationCommand::SetRecord);
    assert_eq!(t.operations[0].pointer.table, "block");
    assert_eq!(t.operations[0].pointer.id, "B");
    assert_eq!(t.operations[0].pointer.space_id, "S");
    assert!(t.operations[0].path.is_empty());
    assert_eq!(
        args_of(&t, 0),
        vec![
            ("type".to_string(), "text:embed".to_string()),
            ("space_id".to_string(), "text:S".to_string()),
            ("id".to_string(), "text:B".to_string()),
            ("version".to_string(), "1".to_string()),
        ]
    );

    assert_eq!(t.operations[1].command, OperationCommand::Update);
    assert_eq!(t.operations[1].pointer.id, "B");
    assert!(t.operations[1].path.is_empty());
    assert_eq!(
        args_of(&t, 1),
        vec![
            ("parent_id".to_string(), "text:P".to_string()),
            ("parent_table".to_string(), "text:block".to_string()),
            ("alive".to_string(), "true".to_string()),
        ]
    );

    assert_eq!(t.operations[2].command, OperationCommand::ListAfter);
    assert_eq!(t.operations[2].pointer.id, "P");
    assert_eq!(t.operations[2].path, vec!["content".to_string()]);
    assert_eq!(
        args_of(&t, 2),
        vec![("id".to_string(), "text:B".to_string())]
    );
}

#[test]
fn create_block_txn_with_anchor_names_it() {
    let t = create_block_txn("T1", "S", "P", "B", Some("A"));
    assert_eq!(t.operations.len(), 3);
    assert_eq!(
        args_of(&t, 2),
        vec![
            ("id".to_string(), "text:B".to_string()),
            ("after".to_string(), "text:A".to_string()),
        ]
    );
}

#[test]
fn format_block_txn_has_one_update_on_format() {
    let t = format_block_txn("T2", "S", "B");
    assert_eq!(t.id, "T2");
    assert_eq!(t.space_id, "S");
    assert_eq!(t.operations.len(), 1);
    assert_eq!(t.operations[0].command, OperationCommand::Update);
    assert_eq!(t.operations[0].pointer.id, "B");
    assert_eq!(t.operations[0].path, vec!["format".to_string()]);
    assert_eq!(
        args_of(&t, 0),
        vec![
            ("block_width".to_string(), "120".to_string()),
            ("block_height".to_string(), "null".to_string()),
            ("block_preserve_scale".to_string(), "true".to_string()),
            ("block_full_width".to_string(), "false".to_string()),
            ("block_page_width".to_string(), "false".to_string()),
        ]
    );
}

#[test]
fn attach_txn_publishes_url_title_and_rendered_size() {
    let t = attach_file_txn("T3", "S", "B", "https://store/obj", "notes.txt", 2048);
    assert_eq!(t.operations.len(), 1);
    assert_eq!(t.operations[0].command, OperationCommand::Update);
    assert_eq!(t.operations[0].pointer.id, "B");
    assert_eq!(t.operations[0].path, vec!["properties".to_string()]);
    assert_eq!(
        args_of(&t, 0),
        vec![
            ("source".to_string(), "cell:https://store/obj".to_string()),
            ("title".to_string(), "cell:notes.txt".to_string()),
            ("size".to_string(), "cell:2.0KB".to_string()),
        ]
    );
}
