//! The block tree of a flat stream and back.

use wat_ir::error::ErrorStage;
use wat_ir::instruction::InputOutput;
use wat_ir::instruction::SerializedInstruction;
use wat_ir::marker::BlockKind;
use wat_ir::marker::SerializableWatType;
use wat_ir::marker::SimpleInstruction;
use wat_ir::syntax::BlockType;
use wat_ir::syntax::Instruction;
use wat_ir::syntax::TypeUse;
use wat_ir::tree::SerializedInstructionNode;
use wat_ir::tree::SerializedInstructionTree;

fn marker(label: &str, kind: BlockKind) -> SerializedInstruction {
    let inout = match kind {
        BlockKind::Else | BlockKind::End => None,
        _ => Some(InputOutput::default()),
    };
    SerializedInstruction::Block { label: label.to_string(), kind, inout }
}

fn nop() -> SerializedInstruction {
    SerializedInstruction::Simple(SimpleInstruction::Nop)
}

fn drop_it() -> SerializedInstruction {
    SerializedInstruction::Simple(SimpleInstruction::Drop)
}

fn count_blocks(nodes: &[SerializedInstructionNode]) -> usize {
    nodes
        .iter()
        .map(|n| match n {
            SerializedInstructionNode::NonBlock(_) => 0,
            SerializedInstructionNode::SingleBlock { inner_nodes, .. } => 1 + count_blocks(inner_nodes),
            SerializedInstructionNode::ConditionalBlock { then_nodes, else_nodes, .. } => {
                1 + count_blocks(then_nodes) + count_blocks(else_nodes)
            }
        })
        .sum()
}

fn count_ends(flat: &[SerializedInstruction]) -> usize {
    flat.iter().filter(|i| matches!(i, SerializedInstruction::Block { kind: BlockKind::End, .. })).count()
}

#[test]
fn leaves_only() {
    let tree = SerializedInstructionTree::assemble(&[nop(), drop_it()]).unwrap();
    assert_eq!(
        *tree.get_root(),
        vec![SerializedInstructionNode::NonBlock(nop()), SerializedInstructionNode::NonBlock(drop_it())]
    );
    assert_eq!(SerializedInstructionTree::assemble(&[]).unwrap().get_root().len(), 0);
}

#[test]
fn nested_blocks() {
    let flat = vec![
        nop(),
        marker("outer", BlockKind::Block),
        marker("again", BlockKind::Loop),
        drop_it(),
        marker("", BlockKind::End),
        nop(),
        marker("", BlockKind::End),
        drop_it(),
    ];
    let tree = SerializedInstructionTree::assemble(&flat).unwrap();
    let want = vec![
        SerializedInstructionNode::NonBlock(nop()),
        SerializedInstructionNode::SingleBlock {
            label: "outer".to_string(),
            inout: InputOutput::default(),
            is_loop: false,
            inner_nodes: vec![
                SerializedInstructionNode::SingleBlock {
                    label: "again".to_string(),
                    inout: InputOutput::default(),
                    is_loop: true,
                    inner_nodes: vec![SerializedInstructionNode::NonBlock(drop_it())],
                },
                SerializedInstructionNode::NonBlock(nop()),
            ],
        },
        SerializedInstructionNode::NonBlock(drop_it()),
    ];
    assert_eq!(*tree.get_root(), want);
    assert_eq!(count_ends(&flat), count_blocks(tree.get_root()));
}

#[test]
fn if_without_else_has_an_empty_second_arm() {
    let signature = InputOutput { index: None, input: vec![], output: vec![SerializableWatType::I32] };
    let flat = vec![
        SerializedInstruction::Block { label: "c".to_string(), kind: BlockKind::If, inout: Some(signature.duplicate()) },
        nop(),
        marker("", BlockKind::End),
    ];
    let tree = SerializedInstructionTree::assemble(&flat).unwrap();
    assert_eq!(
        *tree.get_root(),
        vec![SerializedInstructionNode::ConditionalBlock {
            label: "c".to_string(),
            inout: signature,
            then_nodes: vec![SerializedInstructionNode::NonBlock(nop())],
            else_nodes: vec![],
        }]
    );
}

#[test]
fn else_takes_the_label_of_its_if() {
    let flat = vec![
        marker("c", BlockKind::If),
        nop(),
        marker("", BlockKind::Else),
        drop_it(),
        drop_it(),
        marker("", BlockKind::End),
    ];
    let tree = SerializedInstructionTree::assemble(&flat).unwrap();
    assert_eq!(
        *tree.get_root(),
        vec![SerializedInstructionNode::ConditionalBlock {
            label: "c".to_string(),
            inout: InputOutput::default(),
            then_nodes: vec![SerializedInstructionNode::NonBlock(nop())],
            else_nodes: vec![
                SerializedInstructionNode::NonBlock(drop_it()),
                SerializedInstructionNode::NonBlock(drop_it())
            ],
        }]
    );
}

#[test]
fn else_without_if_is_rejected() {
    let e = SerializedInstructionTree::assemble(&[marker("", BlockKind::Else)]).unwrap_err();
    assert_eq!(e.stage(), ErrorStage::TypeChecking);
    assert_eq!(e.message(), Some("An else block should only follow after an if block.".to_string()));
    let in_block = [marker("b", BlockKind::Block), marker("", BlockKind::Else), marker("", BlockKind::End)];
    assert!(SerializedInstructionTree::assemble(&in_block).is_err());
    let twice = [
        marker("c", BlockKind::If),
        marker("", BlockKind::Else),
        marker("", BlockKind::Else),
        marker("", BlockKind::End),
    ];
    assert!(SerializedInstructionTree::assemble(&twice).is_err());
    let through_lowering = SerializedInstructionTree::try_from_instruction(&[Instruction::Else(None)]).unwrap_err();
    assert_eq!(through_lowering.message(), e.message());
}

#[test]
fn one_end_may_close_the_function() {
    let flat = vec![nop(), marker("", BlockKind::End)];
    let tree = SerializedInstructionTree::assemble(&flat).unwrap();
    assert_eq!(tree.get_root().len(), 1);
    assert_eq!(count_ends(&flat), count_blocks(tree.get_root()) + 1);
    let e = SerializedInstructionTree::assemble(&[marker("", BlockKind::End), marker("", BlockKind::End)]).unwrap_err();
    assert_eq!(e.stage(), ErrorStage::Parsing);
    assert_eq!(e.message(), Some("Not a valid No instruction: End(None)".to_string()));
}

#[test]
fn open_block_at_the_end_is_rejected() {
    let e = SerializedInstructionTree::assemble(&[marker("b", BlockKind::Block), nop()]).unwrap_err();
    assert_eq!(e.stage(), ErrorStage::Parsing);
    assert_eq!(e.message(), Some("Block b is never closed.".to_string()));
}

#[test]
fn end_markers_match_blocks() {
    let flat = vec![
        marker("a", BlockKind::Block),
        marker("b", BlockKind::If),
        marker("", BlockKind::Else),
        marker("c", BlockKind::Loop),
        marker("", BlockKind::End),
        marker("", BlockKind::End),
        marker("d", BlockKind::If),
        marker("", BlockKind::End),
        marker("", BlockKind::End),
        marker("", BlockKind::End),
    ];
    let tree = SerializedInstructionTree::assemble(&flat).unwrap();
    assert_eq!(count_blocks(tree.get_root()), 4);
    assert_eq!(count_ends(&flat), count_blocks(tree.get_root()) + 1);
}

#[test]
fn flatten_writes_every_marker() {
    let flat = vec![
        marker("c", BlockKind::If),
        nop(),
        marker("", BlockKind::End),
        marker("l", BlockKind::Loop),
        marker("", BlockKind::End),
    ];
    let tree = SerializedInstructionTree::assemble(&flat).unwrap();
    let want = vec![
        marker("c", BlockKind::If),
        nop(),
        marker("c", BlockKind::Else),
        marker("c", BlockKind::End),
        marker("l", BlockKind::Loop),
        marker("l", BlockKind::End),
    ];
    assert_eq!(tree.flatten(), want);
    let again = SerializedInstructionTree::assemble(&tree.flatten()).unwrap();
    assert_eq!(again, tree);
}

#[test]
fn tree_from_source_instructions() {
    let body = [
        Instruction::Block(BlockType { label: Some("b".to_string()), ty: TypeUse { index: None, inline: None } }),
        Instruction::Nop,
        Instruction::End(Some("b".to_string())),
    ];
    let tree = SerializedInstructionTree::try_from_instruction(&body).unwrap();
    assert_eq!(
        tree,
        SerializedInstructionTree::from_nodes(vec![SerializedInstructionNode::SingleBlock {
            label: "b".to_string(),
            inout: InputOutput::default(),
            is_loop: false,
            inner_nodes: vec![SerializedInstructionNode::NonBlock(nop())],
        }])
    );
}

#[test]
fn copies_are_equal() {
    let flat = vec![
        marker("a", BlockKind::Block),
        marker("c", BlockKind::If),
        nop(),
        marker("", BlockKind::Else),
        marker("l", BlockKind::Loop),
        drop_it(),
        marker("", BlockKind::End),
        marker("", BlockKind::End),
        marker("", BlockKind::End),
    ];
    let tree = SerializedInstructionTree::assemble(&flat).unwrap();
    let copy = tree.duplicate();
    assert_eq!(copy, tree);
    assert_eq!(tree.get_root()[0].duplicate(), tree.get_root()[0]);
    let nodes = copy.into_root();
    assert_eq!(nodes.len(), 1);
    assert_eq!(SerializedInstructionTree::from_nodes(nodes), tree);
}
