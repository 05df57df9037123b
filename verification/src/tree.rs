//! The block tree: the nesting that the `block`, `loop`, `if`, `else` and
//! `end` markers of a flat instruction stream describe.

use crate::error::WatError;
use crate::error::WatErrorView;
use crate::error::WatResult;
use crate::instruction::InputOutput;
use crate::instruction::InputOutputView;
use crate::instruction::lower_sequence;
use crate::instruction::SerializedInstruction;
use crate::instruction::SerializedInstructionView;
use crate::marker::BlockKind;
use crate::syntax::Instruction;
use crate::views::lemma_deep_view_index;
use crate::views::lemma_deep_view_push;
use vstd::prelude::*;

verus! {

/// A node of the block tree.
#[derive(Debug, PartialEq, Eq)]
pub enum SerializedInstructionNode {
    /// An instruction that is no block marker.
    NonBlock(SerializedInstruction),
    /// A `block` or a `loop` with its body.
    SingleBlock {
        label: String,
        inout: InputOutput,
        is_loop: bool,
        inner_nodes: Vec<SerializedInstructionNode>,
    },
    /// An `if` with both arms; a missing `else` arm is empty.
    ConditionalBlock {
        label: String,
        inout: InputOutput,
        then_nodes: Vec<SerializedInstructionNode>,
        else_nodes: Vec<SerializedInstructionNode>,
    },
}

/// What a `SerializedInstructionNode` holds.
pub enum SerializedInstructionNodeView {
    NonBlock(SerializedInstructionView),
    SingleBlock {
        label: Seq<char>,
        inout: InputOutputView,
        is_loop: bool,
        inner_nodes: Seq<SerializedInstructionNodeView>,
    },
    ConditionalBlock {
        label: Seq<char>,
        inout: InputOutputView,
        then_nodes: Seq<SerializedInstructionNodeView>,
        else_nodes: Seq<SerializedInstructionNodeView>,
    },
}

/// What a node holds.
pub open spec fn node_view(node: SerializedInstructionNode) -> SerializedInstructionNodeView
    decreases node, 0nat,
{
    match node {
        SerializedInstructionNode::NonBlock(i) => SerializedInstructionNodeView::NonBlock(
            i.deep_view(),
        ),
        SerializedInstructionNode::SingleBlock {
            label,
            inout,
            is_loop,
            inner_nodes,
        } => SerializedInstructionNodeView::SingleBlock {
            label: label@,
            inout: inout.deep_view(),
            is_loop,
            inner_nodes: nodes_view(inner_nodes@),
        },
        SerializedInstructionNode::ConditionalBlock {
            label,
            inout,
            then_nodes,
            else_nodes,
        } => SerializedInstructionNodeView::ConditionalBlock {
            label: label@,
            inout: inout.deep_view(),
            then_nodes: nodes_view(then_nodes@),
            else_nodes: nodes_view(else_nodes@),
        },
    }
}

/// What a list of nodes holds.
pub open spec fn nodes_view(nodes: Seq<SerializedInstructionNode>) -> Seq<
    SerializedInstructionNodeView,
>
    decreases nodes, 1nat,
{
    if nodes.len() == 0 {
        Seq::empty()
    } else {
        nodes_view(nodes.drop_last()).push(node_view(nodes.last()))
    }
}

impl DeepView for SerializedInstructionNode {
    type V = SerializedInstructionNodeView;

    open spec fn deep_view(&self) -> SerializedInstructionNodeView {
        node_view(*self)
    }
}

/// The view of a list of nodes holds the view of each node, in order.
pub proof fn lemma_nodes_view(nodes: Seq<SerializedInstructionNode>)
    ensures
        nodes_view(nodes).len() == nodes.len(),
        forall|i: int| 0 <= i < nodes.len() ==> #[trigger] nodes_view(nodes)[i] == node_view(nodes[i]),
    decreases nodes.len(),
{
    if nodes.len() > 0 {
        lemma_nodes_view(nodes.drop_last());
        assert forall|i: int| 0 <= i < nodes.len() implies #[trigger] nodes_view(nodes)[i]
            == node_view(nodes[i]) by {
            if i < nodes.len() - 1 {
                assert(nodes.drop_last()[i] == nodes[i]);
            }
        }
    }
}

/// The view of a vector of nodes is the view of the list it holds.
pub proof fn lemma_children_view(nodes: Vec<SerializedInstructionNode>)
    ensures
        nodes.deep_view() == nodes_view(nodes@),
{
    lemma_nodes_view(nodes@);
    assert(nodes.deep_view() =~= nodes_view(nodes@));
}

/// The view of a node holds the views of the vectors of its children.
pub proof fn lemma_node_view(node: SerializedInstructionNode)
    ensures
        node.deep_view() == match node {
            SerializedInstructionNode::NonBlock(i) => SerializedInstructionNodeView::NonBlock(
                i.deep_view(),
            ),
            SerializedInstructionNode::SingleBlock {
                label,
                inout,
                is_loop,
                inner_nodes,
            } => SerializedInstructionNodeView::SingleBlock {
                label: label@,
                inout: inout.deep_view(),
                is_loop,
                inner_nodes: inner_nodes.deep_view(),
            },
            SerializedInstructionNode::ConditionalBlock {
                label,
                inout,
                then_nodes,
                else_nodes,
            } => SerializedInstructionNodeView::ConditionalBlock {
                label: label@,
                inout: inout.deep_view(),
                then_nodes: then_nodes.deep_view(),
                else_nodes: else_nodes.deep_view(),
            },
        },
{
    match node {
        SerializedInstructionNode::NonBlock(_) => {},
        SerializedInstructionNode::SingleBlock { inner_nodes, .. } => {
            lemma_children_view(inner_nodes);
        },
        SerializedInstructionNode::ConditionalBlock { then_nodes, else_nodes, .. } => {
            lemma_children_view(then_nodes);
            lemma_children_view(else_nodes);
        },
    }
}

/// The body of a function as a tree of blocks.
#[derive(Debug, PartialEq, Eq)]
pub struct SerializedInstructionTree {
    root: Vec<SerializedInstructionNode>,
}

impl DeepView for SerializedInstructionTree {
    type V = Seq<SerializedInstructionNodeView>;

    closed spec fn deep_view(&self) -> Seq<SerializedInstructionNodeView> {
        self.root.deep_view()
    }
}

/// What opened a block that is still being read.
#[derive(Debug, Clone, Copy, PartialEq, Eq, Structural)]
pub enum MarkBlock {
    Regular,
    Loop,
    If,
    Else,
}

/// A block that is still being read, as a contract sees it.
pub struct PendingBlock {
    /// The nodes that came before the block, at the level that holds it.
    /// For an `else` these are the nodes of the first arm.
    pub siblings: Seq<SerializedInstructionNodeView>,
    pub kind: MarkBlock,
    pub label: Seq<char>,
    pub inout: InputOutputView,
}

/// The state of reading a flat stream into a tree.
pub struct Assembly {
    /// The blocks that are open, the innermost last.
    pub pending: Seq<PendingBlock>,
    /// The nodes read so far at the innermost level.
    pub current: Seq<SerializedInstructionNodeView>,
    /// Whether the `end` that closes the function body has been read.
    pub has_func_ended: bool,
}

impl Assembly {
    /// The state before the first instruction.
    pub open spec fn start() -> Assembly {
        Assembly { pending: Seq::empty(), current: Seq::empty(), has_func_ended: false }
    }

    /// Opens a block: what was read at this level waits until it is closed.
    pub open spec fn open_block(self, kind: MarkBlock, label: Seq<char>, inout: InputOutputView) -> Assembly {
        Assembly {
            pending: self.pending.push(
                PendingBlock { siblings: self.current, kind, label, inout },
            ),
            current: Seq::empty(),
            ..self
        }
    }

    /// Closes the innermost block with `node` standing for it: the level
    /// that `siblings` came from goes on with the node appended.
    pub open spec fn close_block(
        self,
        reopened: int,
        siblings: Seq<SerializedInstructionNodeView>,
        node: SerializedInstructionNodeView,
    ) -> Assembly {
        Assembly { pending: self.pending.take(reopened), current: siblings.push(node), ..self }
    }

    /// The state after an `end`.
    pub open spec fn step_end(self) -> Result<Assembly, WatErrorView> {
        let n = self.pending.len() as int;
        if n == 0 {
            if self.has_func_ended {
                Err(WatError::spec_invalid_instruction("No"@, "End(None)"@))
            } else {
                Ok(Assembly { has_func_ended: true, ..self })
            }
        } else {
            let top = self.pending[n - 1];
            match top.kind {
                MarkBlock::Else => if n < 2 {
                    Err(WatError::spec_unimplemented_error("No if block provided"@))
                } else if self.pending[n - 2].kind != MarkBlock::If {
                    Err(WatError::spec_unimplemented_error("No if block before else provided"@))
                } else {
                    Ok(
                        self.close_block(
                            n - 2,
                            self.pending[n - 2].siblings,
                            SerializedInstructionNodeView::ConditionalBlock {
                                label: top.label,
                                inout: self.pending[n - 2].inout,
                                then_nodes: top.siblings,
                                else_nodes: self.current,
                            },
                        ),
                    )
                },
                MarkBlock::If => Ok(
                    self.close_block(
                        n - 1,
                        top.siblings,
                        SerializedInstructionNodeView::ConditionalBlock {
                            label: top.label,
                            inout: top.inout,
                            then_nodes: self.current,
                            else_nodes: Seq::empty(),
                        },
                    ),
                ),
                _ => Ok(
                    self.close_block(
                        n - 1,
                        top.siblings,
                        SerializedInstructionNodeView::SingleBlock {
                            label: top.label,
                            inout: top.inout,
                            is_loop: top.kind == MarkBlock::Loop,
                            inner_nodes: self.current,
                        },
                    ),
                ),
            }
        }
    }

    /// The state after one instruction of the stream.
    ///
    /// `block`, `loop` and `if` open a block. `else` has to follow the
    /// first arm of an `if`, whose label it takes. `end` closes the
    /// innermost block; with none open it closes the function body, once.
    /// Any other instruction is a leaf of the innermost level.
    pub open spec fn step(self, instruction: SerializedInstructionView) -> Result<
        Assembly,
        WatErrorView,
    > {
        match instruction {
            SerializedInstructionView::Block { label, kind, inout } => {
                let signature = match inout {
                    Some(io) => io,
                    None => InputOutputView::empty(),
                };
                match kind {
                    BlockKind::Block => Ok(self.open_block(MarkBlock::Regular, label, signature)),
                    BlockKind::Loop => Ok(self.open_block(MarkBlock::Loop, label, signature)),
                    BlockKind::If => Ok(self.open_block(MarkBlock::If, label, signature)),
                    BlockKind::Else => if self.pending.len() > 0 && self.pending.last().kind
                        == MarkBlock::If {
                        Ok(
                            self.open_block(
                                MarkBlock::Else,
                                self.pending.last().label,
                                InputOutputView::empty(),
                            ),
                        )
                    } else {
                        Err(WatError::spec_else_without_if_error())
                    },
                    BlockKind::End => self.step_end(),
                }
            },
            _ => Ok(
                Assembly {
                    current: self.current.push(SerializedInstructionNodeView::NonBlock(instruction)),
                    ..self
                },
            ),
        }
    }

    /// The state after a sequence of instructions, or the first fault.
    pub open spec fn run(self, instructions: Seq<SerializedInstructionView>) -> Result<
        Assembly,
        WatErrorView,
    >
        decreases instructions.len(),
    {
        if instructions.len() == 0 {
            Ok(self)
        } else {
            match self.step(instructions.first()) {
                Ok(next) => next.run(instructions.drop_first()),
                Err(e) => Err(e),
            }
        }
    }
}

/// The block tree of a flat stream: its top level, once every block that
/// was opened has been closed.
pub open spec fn assemble(instructions: Seq<SerializedInstructionView>) -> Result<
    Seq<SerializedInstructionNodeView>,
    WatErrorView,
> {
    match Assembly::start().run(instructions) {
        Ok(end) => if end.pending.len() == 0 {
            Ok(end.current)
        } else {
            Err(WatError::spec_unclosed_block_error(end.pending.last().label))
        },
        Err(e) => Err(e),
    }
}

/// Whether a stream that has a tree holds the `end` of the function body.
pub open spec fn has_function_end(instructions: Seq<SerializedInstructionView>) -> bool {
    match Assembly::start().run(instructions) {
        Ok(end) => end.has_func_ended,
        Err(_) => false,
    }
}

/// A block marker.
pub open spec fn marker(
    label: Seq<char>,
    kind: BlockKind,
    inout: Option<InputOutputView>,
) -> SerializedInstructionView {
    SerializedInstructionView::Block { label, kind, inout }
}

/// The flat stream of one node: a leaf is itself; a block is its opening
/// marker, its body and an `end`; an `if` has an `else` between its arms.
/// The closing markers carry the label of the block.
pub open spec fn flatten_node(node: SerializedInstructionNodeView) -> Seq<
    SerializedInstructionView,
>
    decreases node, 0nat,
{
    match node {
        SerializedInstructionNodeView::NonBlock(i) => seq![i],
        SerializedInstructionNodeView::SingleBlock { label, inout, is_loop, inner_nodes } => seq![
            marker(
                label,
                if is_loop {
                    BlockKind::Loop
                } else {
                    BlockKind::Block
                },
                Some(inout),
            ),
        ] + flatten(inner_nodes) + seq![marker(label, BlockKind::End, None)],
        SerializedInstructionNodeView::ConditionalBlock {
            label,
            inout,
            then_nodes,
            else_nodes,
        } => seq![marker(label, BlockKind::If, Some(inout))] + flatten(then_nodes) + seq![
            marker(label, BlockKind::Else, None),
        ] + flatten(else_nodes) + seq![marker(label, BlockKind::End, None)],
    }
}

/// The flat stream of a list of nodes, in order.
pub open spec fn flatten(nodes: Seq<SerializedInstructionNodeView>) -> Seq<
    SerializedInstructionView,
>
    decreases nodes, 1nat,
{
    if nodes.len() == 0 {
        Seq::empty()
    } else {
        flatten(nodes.drop_last()) + flatten_node(nodes.last())
    }
}

struct Pending {
    siblings: Vec<SerializedInstructionNode>,
    kind: MarkBlock,
    label: String,
    inout: InputOutput,
}

impl DeepView for Pending {
    type V = PendingBlock;

    closed spec fn deep_view(&self) -> PendingBlock {
        PendingBlock {
            siblings: self.siblings.deep_view(),
            kind: self.kind,
            label: self.label@,
            inout: self.inout.deep_view(),
        }
    }
}

struct Builder {
    pending: Vec<Pending>,
    current: Vec<SerializedInstructionNode>,
    has_func_ended: bool,
}

impl DeepView for Builder {
    type V = Assembly;

    closed spec fn deep_view(&self) -> Assembly {
        Assembly {
            pending: self.pending.deep_view(),
            current: self.current.deep_view(),
            has_func_ended: self.has_func_ended,
        }
    }
}

impl Builder {
    fn start() -> (r: Self)
        ensures
            r.deep_view() == Assembly::start(),
    {
        let r = Builder { pending: Vec::new(), current: Vec::new(), has_func_ended: false };
        assert(r.pending.deep_view() =~= Seq::empty());
        assert(r.current.deep_view() =~= Seq::empty());
        r
    }

    fn open_block(&mut self, kind: MarkBlock, label: String, inout: InputOutput)
        ensures
            final(self).deep_view() == old(self).deep_view().open_block(
                kind,
                label@,
                inout.deep_view(),
            ),
    {
        let mut siblings: Vec<SerializedInstructionNode> = Vec::new();
        std::mem::swap(&mut siblings, &mut self.current);
        let frame = Pending { siblings, kind, label, inout };
        let ghost before = self.pending;
        self.pending.push(frame);
        proof {
            lemma_deep_view_push(before, self.pending, frame);
            assert(self.current.deep_view() =~= Seq::empty());
        }
    }

    fn close_block(
        &mut self,
        siblings: Vec<SerializedInstructionNode>,
        node: SerializedInstructionNode,
    )
        ensures
            final(self).deep_view() == (Assembly {
                current: siblings.deep_view().push(node.deep_view()),
                ..old(self).deep_view()
            }),
    {
        self.current = siblings;
        let ghost before = self.current;
        self.current.push(node);
        proof {
            lemma_deep_view_push(before, self.current, node);
        }
    }

    fn take_current(&mut self) -> (r: Vec<SerializedInstructionNode>)
        ensures
            r == old(self).current,
            final(self).pending == old(self).pending,
            final(self).has_func_ended == old(self).has_func_ended,
    {
        let mut nodes: Vec<SerializedInstructionNode> = Vec::new();
        std::mem::swap(&mut nodes, &mut self.current);
        nodes
    }

    fn pop_pending(&mut self) -> (r: Option<Pending>)
        ensures
            final(self).current == old(self).current,
            final(self).has_func_ended == old(self).has_func_ended,
            match r {
                Some(top) => old(self).pending@.len() > 0 && top == old(self).pending@.last()
                    && final(self).pending.deep_view() == old(self).pending.deep_view().drop_last()
                    && top.deep_view() == old(self).pending.deep_view().last(),
                None => old(self).pending@.len() == 0 && final(self).pending.deep_view() == old(
                    self,
                ).pending.deep_view(),
            },
    {
        let ghost before = self.pending;
        let r = self.pending.pop();
        proof {
            lemma_deep_view_index(before);
            if r is Some {
                assert(self.pending.deep_view() =~= before.deep_view().drop_last());
                assert(before.deep_view().last() == before@[before@.len() - 1].deep_view());
            } else {
                assert(self.pending.deep_view() =~= before.deep_view());
            }
        }
        r
    }

    fn step_end(&mut self) -> (r: WatResult<()>)
        ensures
            match r {
                Ok(()) => old(self).deep_view().step_end() == Ok::<Assembly, WatErrorView>(
                    final(self).deep_view(),
                ),
                Err(e) => old(self).deep_view().step_end() == Err::<Assembly, WatErrorView>(
                    e.deep_view(),
                ),
            },
    {
        proof {
            lemma_deep_view_index(self.pending);
        }
        let ghost before = self.deep_view();
        let top = match self.pop_pending() {
            Some(top) => top,
            None => {
                if self.has_func_ended {
                    return Err(WatError::invalid_instruction("No", "End(None)"));
                }
                self.has_func_ended = true;
                return Ok(());
            },
        };
        let body = self.take_current();
        proof {
            lemma_deep_view_index(self.pending);
        }
        match top.kind {
            MarkBlock::Else => {
                let opener = match self.pop_pending() {
                    Some(opener) => opener,
                    None => {
                        return Err(WatError::unimplemented_error("No if block provided"));
                    },
                };
                if opener.kind != MarkBlock::If {
                    return Err(WatError::unimplemented_error("No if block before else provided"));
                }
                let node = SerializedInstructionNode::ConditionalBlock {
                    label: top.label,
                    inout: opener.inout,
                    then_nodes: top.siblings,
                    else_nodes: body,
                };
                proof {
                    lemma_node_view(node);
                }
                self.close_block(opener.siblings, node);
                proof {
                    assert(self.pending.deep_view() =~= before.pending.take(
                        before.pending.len() - 2,
                    ));
                }
                Ok(())
            },
            MarkBlock::If => {
                let node = SerializedInstructionNode::ConditionalBlock {
                    label: top.label,
                    inout: top.inout,
                    then_nodes: body,
                    else_nodes: Vec::new(),
                };
                proof {
                    lemma_node_view(node);
                    assert(node.deep_view()->ConditionalBlock_else_nodes =~= Seq::empty());
                }
                self.close_block(top.siblings, node);
                proof {
                    assert(self.pending.deep_view() =~= before.pending.take(
                        before.pending.len() - 1,
                    ));
                }
                Ok(())
            },
            _ => {
                let node = SerializedInstructionNode::SingleBlock {
                    label: top.label,
                    inout: top.inout,
                    is_loop: top.kind == MarkBlock::Loop,
                    inner_nodes: body,
                };
                proof {
                    lemma_node_view(node);
                }
                self.close_block(top.siblings, node);
                proof {
                    assert(self.pending.deep_view() =~= before.pending.take(
                        before.pending.len() - 1,
                    ));
                }
                Ok(())
            },
        }
    }

    fn step(&mut self, instruction: &SerializedInstruction) -> (r: WatResult<()>)
        ensures
            match r {
                Ok(()) => old(self).deep_view().step(instruction.deep_view()) == Ok::<
                    Assembly,
                    WatErrorView,
                >(final(self).deep_view()),
                Err(e) => old(self).deep_view().step(instruction.deep_view()) == Err::<
                    Assembly,
                    WatErrorView,
                >(e.deep_view()),
            },
    {
        proof {
            lemma_deep_view_index(self.pending);
        }
        match instruction {
            SerializedInstruction::Block { label, kind, inout } => {
                match kind {
                    BlockKind::Block | BlockKind::Loop | BlockKind::If => {
                        let signature = match inout {
                            Some(io) => io.duplicate(),
                            None => InputOutput::empty(),
                        };
                        let mark = match kind {
                            BlockKind::Block => MarkBlock::Regular,
                            BlockKind::Loop => MarkBlock::Loop,
                            _ => MarkBlock::If,
                        };
                        self.open_block(mark, label.clone(), signature);
                        Ok(())
                    },
                    BlockKind::Else => {
                        let n = self.pending.len();
                        if n == 0 || self.pending[n - 1].kind != MarkBlock::If {
                            return Err(WatError::else_without_if_error());
                        }
                        let label = self.pending[n - 1].label.clone();
                        self.open_block(MarkBlock::Else, label, InputOutput::empty());
                        Ok(())
                    },
                    BlockKind::End => self.step_end(),
                }
            },
            _ => {
                let leaf = SerializedInstructionNode::NonBlock(instruction.duplicate());
                let ghost before = self.current;
                self.current.push(leaf);
                proof {
                    lemma_deep_view_push(before, self.current, leaf);
                }
                Ok(())
            },
        }
    }
}

impl SerializedInstructionTree {
    /// The nodes of the top level.
    pub fn get_root(&self) -> (r: &Vec<SerializedInstructionNode>)
        ensures
            r.deep_view() == self.deep_view(),
    {
        &self.root
    }

    /// The nodes of the top level, by value.
    pub fn into_root(self) -> (r: Vec<SerializedInstructionNode>)
        ensures
            r.deep_view() == self.deep_view(),
    {
        self.root
    }

    /// A tree with the given top level.
    pub fn from_nodes(root: Vec<SerializedInstructionNode>) -> (r: Self)
        ensures
            r.deep_view() == root.deep_view(),
    {
        SerializedInstructionTree { root }
    }

    /// Reads a flat stream of normalized instructions into its block tree.
    /// No leaf of the tree is a block marker.
    pub fn assemble(instructions: &[SerializedInstruction]) -> (r: WatResult<Self>)
        ensures
            match r {
                Ok(tree) => assemble(instructions.deep_view()) == Ok::<
                    Seq<SerializedInstructionNodeView>,
                    WatErrorView,
                >(tree.deep_view()) && leaves_are_plain(tree.deep_view()),
                Err(e) => assemble(instructions.deep_view()) == Err::<
                    Seq<SerializedInstructionNodeView>,
                    WatErrorView,
                >(e.deep_view()),
            },
    {
        let mut builder = Builder::start();
        let ghost all = instructions.deep_view();
        let mut i: usize = 0;
        proof {
            assert(all.skip(0) =~= all);
        }
        while i < instructions.len()
            invariant
                i <= instructions.len(),
                all == instructions.deep_view(),
                all.len() == instructions.len(),
                Assembly::start().run(all) == builder.deep_view().run(all.skip(i as int)),
            decreases instructions.len() - i,
        {
            proof {
                assert(all.skip(i as int).first() == instructions@[i as int].deep_view());
                assert(all.skip(i as int).drop_first() =~= all.skip(i + 1));
            }
            match builder.step(&instructions[i]) {
                Ok(()) => {},
                Err(e) => {
                    return Err(e);
                },
            }
            i = i + 1;
        }
        proof {
            lemma_deep_view_index(builder.pending);
        }
        let n = builder.pending.len();
        if n != 0 {
            return Err(WatError::unclosed_block_error(builder.pending[n - 1].label.as_str()));
        }
        proof {
            lemma_assembled_tree_is_stable(all);
        }
        Ok(SerializedInstructionTree { root: builder.current })
    }

    /// Lowers the instructions of a function body and reads the result
    /// into its block tree. Lowering comes first: a fault of it is
    /// reported before any fault of the nesting.
    pub fn try_from_instruction(instructions: &[Instruction]) -> (r: WatResult<Self>)
        ensures
            match r {
                Ok(tree) => tree_of(instructions@) == Ok::<
                    Seq<SerializedInstructionNodeView>,
                    WatErrorView,
                >(tree.deep_view()) && leaves_are_plain(tree.deep_view()),
                Err(e) => tree_of(instructions@) == Err::<
                    Seq<SerializedInstructionNodeView>,
                    WatErrorView,
                >(e.deep_view()),
            },
    {
        match SerializedInstruction::lower_all(instructions) {
            Ok(flat) => Self::assemble(flat.as_slice()),
            Err(e) => Err(e),
        }
    }
}

/// The block tree of the instructions of a function body.
pub open spec fn tree_of(instructions: Seq<Instruction>) -> Result<
    Seq<SerializedInstructionNodeView>,
    WatErrorView,
> {
    match lower_sequence(instructions) {
        Ok(flat) => assemble(flat),
        Err(e) => Err(e),
    }
}

fn push_instruction(out: &mut Vec<SerializedInstruction>, instruction: SerializedInstruction)
    ensures
        final(out).deep_view() == old(out).deep_view().push(instruction.deep_view()),
{
    let ghost before = *out;
    out.push(instruction);
    proof {
        lemma_deep_view_push(before, *out, instruction);
    }
}

fn push_marker(
    out: &mut Vec<SerializedInstruction>,
    label: &String,
    kind: BlockKind,
    inout: Option<InputOutput>,
)
    ensures
        final(out).deep_view() == old(out).deep_view().push(
            marker(label@, kind, inout.deep_view()),
        ),
{
    push_instruction(out, SerializedInstruction::Block { label: label.clone(), kind, inout });
}

fn flatten_node_into(node: &SerializedInstructionNode, out: &mut Vec<SerializedInstruction>)
    ensures
        final(out).deep_view() == old(out).deep_view() + flatten_node(node.deep_view()),
    decreases node, 0nat,
{
    proof {
        lemma_node_view(*node);
    }
    match node {
        SerializedInstructionNode::NonBlock(i) => {
            push_instruction(out, i.duplicate());
            assert(out.deep_view() =~= old(out).deep_view() + flatten_node(node.deep_view()));
        },
        SerializedInstructionNode::SingleBlock { label, inout, is_loop, inner_nodes } => {
            let kind = if *is_loop {
                BlockKind::Loop
            } else {
                BlockKind::Block
            };
            push_marker(out, label, kind, Some(inout.duplicate()));
            flatten_nodes_into(inner_nodes, out);
            push_marker(out, label, BlockKind::End, None);
            assert(out.deep_view() =~= old(out).deep_view() + flatten_node(node.deep_view()));
        },
        SerializedInstructionNode::ConditionalBlock { label, inout, then_nodes, else_nodes } => {
            push_marker(out, label, BlockKind::If, Some(inout.duplicate()));
            flatten_nodes_into(then_nodes, out);
            push_marker(out, label, BlockKind::Else, None);
            flatten_nodes_into(else_nodes, out);
            push_marker(out, label, BlockKind::End, None);
            assert(out.deep_view() =~= old(out).deep_view() + flatten_node(node.deep_view()));
        },
    }
}

fn flatten_nodes_into(
    nodes: &Vec<SerializedInstructionNode>,
    out: &mut Vec<SerializedInstruction>,
)
    ensures
        final(out).deep_view() == old(out).deep_view() + flatten(nodes.deep_view()),
    decreases nodes, 1nat,
{
    let ghost views = nodes.deep_view();
    let mut i: usize = 0;
    proof {
        lemma_deep_view_index(*nodes);
        assert(views.take(0) =~= Seq::empty());
        assert(out.deep_view() =~= old(out).deep_view() + flatten(views.take(0)));
    }
    while i < nodes.len()
        invariant
            i <= nodes.len(),
            views == nodes.deep_view(),
            views.len() == nodes.len(),
            out.deep_view() == old(out).deep_view() + flatten(views.take(i as int)),
        decreases nodes.len() - i,
    {
        let ghost before = out.deep_view();
        flatten_node_into(&nodes[i], out);
        proof {
            lemma_deep_view_index(*nodes);
            let next = views.take(i + 1);
            assert(next.drop_last() =~= views.take(i as int));
            assert(next.last() == nodes@[i as int].deep_view());
            assert(out.deep_view() =~= old(out).deep_view() + flatten(next));
        }
        i = i + 1;
    }
    proof {
        assert(views.take(nodes.len() as int) =~= views);
    }
}

fn duplicate_nodes(nodes: &Vec<SerializedInstructionNode>) -> (r: Vec<SerializedInstructionNode>)
    ensures
        r.deep_view() == nodes.deep_view(),
    decreases nodes, 1nat,
{
    let mut out: Vec<SerializedInstructionNode> = Vec::new();
    let mut i: usize = 0;
    proof {
        assert(out.deep_view() =~= nodes.deep_view().take(0));
    }
    while i < nodes.len()
        invariant
            i <= nodes.len(),
            out.deep_view() == nodes.deep_view().take(i as int),
        decreases nodes.len() - i,
    {
        let ghost before = out;
        let node = nodes[i].duplicate();
        out.push(node);
        proof {
            lemma_deep_view_push(before, out, node);
            lemma_deep_view_index(*nodes);
            assert(out.deep_view() =~= nodes.deep_view().take(i + 1));
        }
        i = i + 1;
    }
    proof {
        assert(nodes.deep_view().take(nodes.len() as int) =~= nodes.deep_view());
    }
    out
}

impl SerializedInstructionNode {
    /// A copy of the node and of everything below it.
    pub fn duplicate(&self) -> (r: Self)
        ensures
            r.deep_view() == self.deep_view(),
        decreases self, 0nat,
    {
        let r = match self {
            SerializedInstructionNode::NonBlock(i) => SerializedInstructionNode::NonBlock(
                i.duplicate(),
            ),
            SerializedInstructionNode::SingleBlock {
                label,
                inout,
                is_loop,
                inner_nodes,
            } => SerializedInstructionNode::SingleBlock {
                label: label.clone(),
                inout: inout.duplicate(),
                is_loop: *is_loop,
                inner_nodes: duplicate_nodes(inner_nodes),
            },
            SerializedInstructionNode::ConditionalBlock {
                label,
                inout,
                then_nodes,
                else_nodes,
            } => SerializedInstructionNode::ConditionalBlock {
                label: label.clone(),
                inout: inout.duplicate(),
                then_nodes: duplicate_nodes(then_nodes),
                else_nodes: duplicate_nodes(else_nodes),
            },
        };
        proof {
            lemma_node_view(r);
            lemma_node_view(*self);
        }
        r
    }
}

impl SerializedInstructionTree {
    /// A copy of the tree.
    pub fn duplicate(&self) -> (r: Self)
        ensures
            r.deep_view() == self.deep_view(),
    {
        SerializedInstructionTree { root: duplicate_nodes(&self.root) }
    }

    /// The flat stream that the tree stands for, with the markers of every
    /// block.
    pub fn flatten(&self) -> (r: Vec<SerializedInstruction>)
        ensures
            r.deep_view() == flatten(self.deep_view()),
    {
        let mut out: Vec<SerializedInstruction> = Vec::new();
        proof {
            assert(out.deep_view() =~= Seq::empty());
        }
        flatten_nodes_into(&self.root, &mut out);
        proof {
            assert(out.deep_view() =~= flatten(self.deep_view()));
        }
        out
    }
}

/// Whether an instruction is the marker `end`.
pub open spec fn is_end(instruction: SerializedInstructionView) -> bool {
    instruction matches SerializedInstructionView::Block { kind, .. } && kind == BlockKind::End
}

/// The number of `end` markers in a stream.
pub open spec fn count_ends(instructions: Seq<SerializedInstructionView>) -> nat
    decreases instructions.len(),
{
    if instructions.len() == 0 {
        0
    } else {
        count_ends(instructions.drop_first()) + if is_end(instructions.first()) {
            1nat
        } else {
            0nat
        }
    }
}

/// The number of blocks in a node: itself, if it is one, and those below it.
pub open spec fn count_blocks_node(node: SerializedInstructionNodeView) -> nat
    decreases node, 0nat,
{
    match node {
        SerializedInstructionNodeView::NonBlock(_) => 0,
        SerializedInstructionNodeView::SingleBlock { inner_nodes, .. } => 1 + count_blocks(
            inner_nodes,
        ),
        SerializedInstructionNodeView::ConditionalBlock { then_nodes, else_nodes, .. } => 1
            + count_blocks(then_nodes) + count_blocks(else_nodes),
    }
}

/// The number of blocks in a list of nodes.
pub open spec fn count_blocks(nodes: Seq<SerializedInstructionNodeView>) -> nat
    decreases nodes, 1nat,
{
    if nodes.len() == 0 {
        0
    } else {
        count_blocks(nodes.drop_last()) + count_blocks_node(nodes.last())
    }
}

/// The number of blocks among the nodes that wait in open blocks.
pub open spec fn count_pending(pending: Seq<PendingBlock>) -> nat
    decreases pending.len(),
{
    if pending.len() == 0 {
        0
    } else {
        count_pending(pending.drop_last()) + count_blocks(pending.last().siblings)
    }
}

impl Assembly {
    /// The number of `end` markers that the state accounts for: one for
    /// each block that was closed, and one for the function body once it
    /// was closed.
    pub open spec fn ends_read(self) -> nat {
        count_blocks(self.current) + count_pending(self.pending) + if self.has_func_ended {
            1nat
        } else {
            0nat
        }
    }
}

proof fn lemma_count_push(
    nodes: Seq<SerializedInstructionNodeView>,
    node: SerializedInstructionNodeView,
)
    ensures
        count_blocks(nodes.push(node)) == count_blocks(nodes) + count_blocks_node(node),
{
    assert(nodes.push(node).drop_last() =~= nodes);
}

proof fn lemma_count_pending_push(pending: Seq<PendingBlock>, block: PendingBlock)
    ensures
        count_pending(pending.push(block)) == count_pending(pending) + count_blocks(block.siblings),
{
    assert(pending.push(block).drop_last() =~= pending);
}

proof fn lemma_count_pending_take(pending: Seq<PendingBlock>)
    requires
        pending.len() > 0,
    ensures
        count_pending(pending) == count_pending(pending.take(pending.len() - 1)) + count_blocks(
            pending.last().siblings,
        ),
{
    assert(pending.drop_last() =~= pending.take(pending.len() - 1));
}

proof fn lemma_step_counts(state: Assembly, instruction: SerializedInstructionView)
    requires
        state.step(instruction) is Ok,
    ensures
        state.step(instruction)->Ok_0.ends_read() == state.ends_read() + if is_end(instruction) {
            1nat
        } else {
            0nat
        },
{
    let next = state.step(instruction)->Ok_0;
    let n = state.pending.len() as int;
    assert(count_blocks(Seq::<SerializedInstructionNodeView>::empty()) == 0);
    match instruction {
        SerializedInstructionView::Block { label, kind, inout } => {
            match kind {
                BlockKind::End => {
                    if n > 0 {
                        let top = state.pending[n - 1];
                        lemma_count_pending_take(state.pending);
                        if top.kind == MarkBlock::Else {
                            let opener = state.pending[n - 2];
                            let rest = state.pending.take(n - 1);
                            lemma_count_pending_take(rest);
                            assert(rest.take(rest.len() - 1) =~= state.pending.take(n - 2));
                            assert(rest.last() == opener);
                            lemma_count_push(opener.siblings, next.current.last());
                            assert(next.current == opener.siblings.push(next.current.last()));
                        } else {
                            lemma_count_push(top.siblings, next.current.last());
                            assert(next.current == top.siblings.push(next.current.last()));
                        }
                    }
                },
                _ => {
                    lemma_count_pending_push(state.pending, next.pending.last());
                    assert(next.pending == state.pending.push(next.pending.last()));
                },
            }
        },
        _ => {
            lemma_count_push(state.current, SerializedInstructionNodeView::NonBlock(instruction));
        },
    }
}

proof fn lemma_run_counts(state: Assembly, instructions: Seq<SerializedInstructionView>)
    requires
        state.run(instructions) is Ok,
    ensures
        state.run(instructions)->Ok_0.ends_read() == state.ends_read() + count_ends(instructions),
    decreases instructions.len(),
{
    if instructions.len() > 0 {
        lemma_step_counts(state, instructions.first());
        lemma_run_counts(state.step(instructions.first())->Ok_0, instructions.drop_first());
    }
}

/// Every `end` of a stream that has a tree closes one block of the tree,
/// but for the one that closes the function body, if the stream holds it.
pub proof fn lemma_end_markers_match_blocks(instructions: Seq<SerializedInstructionView>)
    requires
        assemble(instructions) is Ok,
    ensures
        count_ends(instructions) == count_blocks(assemble(instructions)->Ok_0) + if has_function_end(
            instructions,
        ) {
            1nat
        } else {
            0nat
        },
{
    lemma_run_counts(Assembly::start(), instructions);
    assert(count_pending(Seq::<PendingBlock>::empty()) == 0);
    assert(count_blocks(Seq::<SerializedInstructionNodeView>::empty()) == 0);
}

/// Whether no leaf of a node is a block marker.
pub open spec fn leaves_are_plain_node(node: SerializedInstructionNodeView) -> bool
    decreases node, 0nat,
{
    match node {
        SerializedInstructionNodeView::NonBlock(i) => !(i is Block),
        SerializedInstructionNodeView::SingleBlock { inner_nodes, .. } => leaves_are_plain(
            inner_nodes,
        ),
        SerializedInstructionNodeView::ConditionalBlock {
            then_nodes,
            else_nodes,
            ..
        } => leaves_are_plain(then_nodes) && leaves_are_plain(else_nodes),
    }
}

/// Whether no leaf of a list of nodes is a block marker.
pub open spec fn leaves_are_plain(nodes: Seq<SerializedInstructionNodeView>) -> bool
    decreases nodes, 1nat,
{
    if nodes.len() == 0 {
        true
    } else {
        leaves_are_plain(nodes.drop_last()) && leaves_are_plain_node(nodes.last())
    }
}

proof fn lemma_run_concat(
    state: Assembly,
    first: Seq<SerializedInstructionView>,
    second: Seq<SerializedInstructionView>,
)
    ensures
        state.run(first + second) == match state.run(first) {
            Ok(middle) => middle.run(second),
            Err(e) => Err(e),
        },
    decreases first.len(),
{
    if first.len() == 0 {
        assert(first + second =~= second);
    } else {
        assert((first + second).first() == first.first());
        assert((first + second).drop_first() =~= first.drop_first() + second);
        match state.step(first.first()) {
            Ok(next) => {
                lemma_run_concat(next, first.drop_first(), second);
            },
            Err(_) => {},
        }
    }
}

proof fn lemma_run_one(state: Assembly, instruction: SerializedInstructionView)
    ensures
        state.run(seq![instruction]) == state.step(instruction),
{
    reveal_with_fuel(Assembly::run, 2);
    assert(seq![instruction].drop_first() =~= Seq::<SerializedInstructionView>::empty());
}

proof fn lemma_run_flatten_node(state: Assembly, node: SerializedInstructionNodeView)
    requires
        leaves_are_plain_node(node),
    ensures
        state.run(flatten_node(node)) == Ok::<Assembly, WatErrorView>(
            Assembly { current: state.current.push(node), ..state },
        ),
    decreases node, 0nat,
{
    let n = state.pending.len() as int;
    match node {
        SerializedInstructionNodeView::NonBlock(i) => {
            lemma_run_one(state, i);
        },
        SerializedInstructionNodeView::SingleBlock { label, inout, is_loop, inner_nodes } => {
            let kind = if is_loop {
                BlockKind::Loop
            } else {
                BlockKind::Block
            };
            let opening = marker(label, kind, Some(inout));
            let closing = marker(label, BlockKind::End, None);
            let opened = state.step(opening)->Ok_0;
            let filled = Assembly { current: opened.current + inner_nodes, ..opened };
            lemma_run_concat(state, seq![opening] + flatten(inner_nodes), seq![closing]);
            lemma_run_concat(state, seq![opening], flatten(inner_nodes));
            lemma_run_one(state, opening);
            lemma_run_flatten(opened, inner_nodes);
            lemma_run_one(filled, closing);
            assert(opened.current + inner_nodes =~= inner_nodes);
            assert(filled.pending.take(n) =~= state.pending);
        },
        SerializedInstructionNodeView::ConditionalBlock { label, inout, then_nodes, else_nodes } => {
            let opening = marker(label, BlockKind::If, Some(inout));
            let middle = marker(label, BlockKind::Else, None);
            let closing = marker(label, BlockKind::End, None);
            let opened = state.step(opening)->Ok_0;
            let first = Assembly { current: opened.current + then_nodes, ..opened };
            let turned = first.step(middle)->Ok_0;
            let second = Assembly { current: turned.current + else_nodes, ..turned };
            lemma_run_concat(
                state,
                seq![opening] + flatten(then_nodes) + seq![middle] + flatten(else_nodes),
                seq![closing],
            );
            lemma_run_concat(
                state,
                seq![opening] + flatten(then_nodes) + seq![middle],
                flatten(else_nodes),
            );
            lemma_run_concat(state, seq![opening] + flatten(then_nodes), seq![middle]);
            lemma_run_concat(state, seq![opening], flatten(then_nodes));
            lemma_run_one(state, opening);
            lemma_run_flatten(opened, then_nodes);
            assert(opened.current + then_nodes =~= then_nodes);
            lemma_run_one(first, middle);
            lemma_run_flatten(turned, else_nodes);
            assert(turned.current + else_nodes =~= else_nodes);
            lemma_run_one(second, closing);
            assert(second.pending.take(n) =~= state.pending);
        },
    }
}

proof fn lemma_run_flatten(state: Assembly, nodes: Seq<SerializedInstructionNodeView>)
    requires
        leaves_are_plain(nodes),
    ensures
        state.run(flatten(nodes)) == Ok::<Assembly, WatErrorView>(
            Assembly { current: state.current + nodes, ..state },
        ),
    decreases nodes, 1nat,
{
    if nodes.len() == 0 {
        assert(state.current + nodes =~= state.current);
    } else {
        let front = Assembly { current: state.current + nodes.drop_last(), ..state };
        lemma_run_concat(state, flatten(nodes.drop_last()), flatten_node(nodes.last()));
        lemma_run_flatten(state, nodes.drop_last());
        lemma_run_flatten_node(front, nodes.last());
        assert(front.current.push(nodes.last()) =~= state.current + nodes);
    }
}

/// Reading the flat stream of a tree gives the tree back, where no leaf
/// of the tree is a block marker; and that stream does not hold the `end`
/// of the function body.
pub proof fn lemma_assemble_inverts_flatten(nodes: Seq<SerializedInstructionNodeView>)
    requires
        leaves_are_plain(nodes),
    ensures
        assemble(flatten(nodes)) == Ok::<Seq<SerializedInstructionNodeView>, WatErrorView>(nodes),
        !has_function_end(flatten(nodes)),
{
    lemma_run_flatten(Assembly::start(), nodes);
    assert(Assembly::start().current + nodes =~= nodes);
}

impl Assembly {
    /// Whether no leaf read so far is a block marker.
    pub open spec fn leaves_are_plain(self) -> bool {
        &&& leaves_are_plain(self.current)
        &&& forall|i: int|
            0 <= i < self.pending.len() ==> leaves_are_plain((#[trigger] self.pending[i]).siblings)
    }
}

proof fn lemma_plain_push(
    nodes: Seq<SerializedInstructionNodeView>,
    node: SerializedInstructionNodeView,
)
    ensures
        leaves_are_plain(nodes.push(node)) == (leaves_are_plain(nodes) && leaves_are_plain_node(
            node,
        )),
{
    assert(nodes.push(node).drop_last() =~= nodes);
}

proof fn lemma_step_keeps_leaves_plain(state: Assembly, instruction: SerializedInstructionView)
    requires
        state.leaves_are_plain(),
        state.step(instruction) is Ok,
    ensures
        state.step(instruction)->Ok_0.leaves_are_plain(),
{
    let next = state.step(instruction)->Ok_0;
    let n = state.pending.len() as int;
    assert(leaves_are_plain(Seq::<SerializedInstructionNodeView>::empty()));
    match instruction {
        SerializedInstructionView::Block { label, kind, inout } => {
            match kind {
                BlockKind::End => {
                    if n > 0 {
                        let top = state.pending[n - 1];
                        if top.kind == MarkBlock::Else {
                            let opener = state.pending[n - 2];
                            lemma_plain_push(opener.siblings, next.current.last());
                            assert(next.current == opener.siblings.push(next.current.last()));
                        } else {
                            lemma_plain_push(top.siblings, next.current.last());
                            assert(next.current == top.siblings.push(next.current.last()));
                        }
                        assert forall|i: int| 0 <= i < next.pending.len() implies leaves_are_plain(
                            (#[trigger] next.pending[i]).siblings,
                        ) by {
                            assert(next.pending[i] == state.pending[i]);
                        }
                    }
                },
                _ => {
                    assert forall|i: int| 0 <= i < next.pending.len() implies leaves_are_plain(
                        (#[trigger] next.pending[i]).siblings,
                    ) by {
                        if i < n {
                            assert(next.pending[i] == state.pending[i]);
                        }
                    }
                },
            }
        },
        _ => {
            lemma_plain_push(state.current, SerializedInstructionNodeView::NonBlock(instruction));
        },
    }
}

proof fn lemma_run_keeps_leaves_plain(
    state: Assembly,
    instructions: Seq<SerializedInstructionView>,
)
    requires
        state.leaves_are_plain(),
        state.run(instructions) is Ok,
    ensures
        state.run(instructions)->Ok_0.leaves_are_plain(),
    decreases instructions.len(),
{
    if instructions.len() > 0 {
        lemma_step_keeps_leaves_plain(state, instructions.first());
        lemma_run_keeps_leaves_plain(
            state.step(instructions.first())->Ok_0,
            instructions.drop_first(),
        );
    }
}

/// The tree of a stream has no block marker among its leaves; so it is
/// the tree of its own flat stream.
pub proof fn lemma_assembled_tree_is_stable(instructions: Seq<SerializedInstructionView>)
    requires
        assemble(instructions) is Ok,
    ensures
        leaves_are_plain(assemble(instructions)->Ok_0),
        assemble(flatten(assemble(instructions)->Ok_0)) == assemble(instructions),
{
    assert(leaves_are_plain(Seq::<SerializedInstructionNodeView>::empty()));
    lemma_run_keeps_leaves_plain(Assembly::start(), instructions);
    lemma_assemble_inverts_flatten(assemble(instructions)->Ok_0);
}

} // verus!
