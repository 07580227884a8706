use vstd::prelude::*;

use crate::ast::AbstractSyntaxTree;
use crate::datatypes::Variable;
use crate::symbol_table::SymbolTable;

verus! {

/// What a block holds: its parent's handle, its own bindings and its statements.
pub struct BlockModel {
    pub parent: Option<usize>,
    pub symbols: Map<Seq<char>, Variable>,
    pub statements: Seq<AbstractSyntaxTree>,
}

/// A fresh block under `parent`, with no bindings and no statements.
pub open spec fn empty_block(parent: Option<usize>) -> BlockModel {
    BlockModel { parent, symbols: Map::empty(), statements: Seq::empty() }
}

/// Every parent handle points to an earlier block, so that climbing the chain ends.
pub open spec fn tree_wf(tree: Seq<BlockModel>) -> bool {
    forall|i: int|
        0 <= i < tree.len() ==> match #[trigger] tree[i].parent {
            Some(p) => p < i,
            None => true,
        }
}

/// The binding that `name` has as seen from block `b`: its own, else the nearest ancestor's.
pub open spec fn lookup(tree: Seq<BlockModel>, b: int, name: Seq<char>) -> Option<Variable>
    decreases b,
{
    if 0 <= b < tree.len() {
        if tree[b].symbols.contains_key(name) {
            Some(tree[b].symbols[name])
        } else {
            match tree[b].parent {
                Some(p) => if p < b {
                    lookup(tree, p as int, name)
                } else {
                    None
                },
                None => None,
            }
        }
    } else {
        None
    }
}

/// `tree` with `name` bound to `v` in block `b`'s own table.
pub open spec fn bind(tree: Seq<BlockModel>, b: int, name: Seq<char>, v: Variable) -> Seq<
    BlockModel,
> {
    tree.update(b, BlockModel { symbols: tree[b].symbols.insert(name, v), ..tree[b] })
}

/// `tree` with the statements of block `b` replaced.
pub open spec fn with_statements(
    tree: Seq<BlockModel>,
    b: int,
    statements: Seq<AbstractSyntaxTree>,
) -> Seq<BlockModel> {
    tree.update(b, BlockModel { statements, ..tree[b] })
}

/// A lexical scope: its own symbol table, its statements and the handle of its parent.
pub struct Block {
    parent: Option<usize>,
    symbols: SymbolTable,
    statements: Vec<AbstractSyntaxTree>,
}

impl View for Block {
    type V = BlockModel;

    closed spec fn view(&self) -> BlockModel {
        BlockModel { parent: self.parent, symbols: self.symbols@, statements: self.statements@ }
    }
}

/// All blocks of a program, addressed by handle; handle 0 is the global block.
pub struct ScopeTree {
    blocks: Vec<Block>,
}

impl View for ScopeTree {
    type V = Seq<BlockModel>;

    closed spec fn view(&self) -> Seq<BlockModel> {
        self.blocks@.map_values(|b: Block| b@)
    }
}

impl ScopeTree {
    pub closed spec fn wf(&self) -> bool {
        &&& tree_wf(self@)
        &&& forall|i: int| 0 <= i < self.blocks@.len() ==> (#[trigger] self.blocks@[i]).symbols.wf()
    }

    /// In a well-formed tree every parent handle is below its child's.
    pub proof fn lemma_parents_precede(&self)
        requires
            self.wf(),
        ensures
            tree_wf(self@),
    {
    }

    /// A tree that holds only the global block.
    pub fn new() -> (r: ScopeTree)
        ensures
            r.wf(),
            r@ == seq![empty_block(None)],
    {
        let mut blocks: Vec<Block> = Vec::new();
        blocks.push(Block { parent: None, symbols: SymbolTable::new(), statements: Vec::new() });
        let r = ScopeTree { blocks };
        assert(r@ =~= seq![empty_block(None)]);
        r
    }

    pub fn len(&self) -> (r: usize)
        ensures
            r == self@.len(),
    {
        self.blocks.len()
    }

    /// Adds an empty block under `parent` and returns its handle.
    pub fn add_block(&mut self, parent: usize) -> (r: usize)
        requires
            old(self).wf(),
            parent < old(self)@.len(),
        ensures
            final(self).wf(),
            r == old(self)@.len(),
            final(self)@ == old(self)@.push(empty_block(Some(parent))),
    {
        let r = self.blocks.len();
        self.blocks.push(
            Block { parent: Some(parent), symbols: SymbolTable::new(), statements: Vec::new() },
        );
        assert(self@ =~= old(self)@.push(empty_block(Some(parent))));
        r
    }

    pub fn parent(&self, b: usize) -> (r: Option<usize>)
        requires
            b < self@.len(),
        ensures
            r == self@[b as int].parent,
    {
        self.blocks[b].parent
    }

    pub fn statements(&self, b: usize) -> (r: &Vec<AbstractSyntaxTree>)
        requires
            b < self@.len(),
        ensures
            r@ == self@[b as int].statements,
    {
        &self.blocks[b].statements
    }

    /// The table that block `b` owns, without its ancestors' bindings.
    pub fn symbols(&self, b: usize) -> (r: &SymbolTable)
        requires
            self.wf(),
            b < self@.len(),
        ensures
            r.wf(),
            r@ == self@[b as int].symbols,
    {
        &self.blocks[b].symbols
    }

    /// The binding of `name` seen from block `b`, climbing the parent chain.
    pub fn get_symbol(&self, b: usize, name: &String) -> (r: Option<Variable>)
        requires
            self.wf(),
            b < self@.len(),
        ensures
            r == lookup(self@, b as int, name@),
    {
        let mut cur: usize = b;
        loop
            invariant
                self.wf(),
                cur < self@.len(),
                lookup(self@, b as int, name@) == lookup(self@, cur as int, name@),
            decreases cur,
        {
            let table = &self.blocks[cur].symbols;
            if table.contains(name) {
                return table.get(name);
            }
            match self.blocks[cur].parent {
                Some(p) => {
                    assert(self@[cur as int].parent == Some(p));
                    cur = p;
                },
                None => {
                    return None;
                },
            }
        }
    }

    pub fn contains_symbol(&self, b: usize, name: &String) -> (r: bool)
        requires
            self.wf(),
            b < self@.len(),
        ensures
            r == lookup(self@, b as int, name@) is Some,
    {
        self.get_symbol(b, name).is_some()
    }

    /// Binds `name` in block `b`'s own table; ancestors are left as they are.
    pub fn add_symbol(&mut self, b: usize, name: String, variable: Variable)
        requires
            old(self).wf(),
            b < old(self)@.len(),
        ensures
            final(self).wf(),
            final(self)@ == bind(old(self)@, b as int, name@, variable),
    {
        let ghost k = name@;
        self.blocks[b].symbols.insert(name, variable);
        assert(self@ =~= bind(old(self)@, b as int, k, variable));
    }

    pub fn set_statements(&mut self, b: usize, statements: Vec<AbstractSyntaxTree>)
        requires
            old(self).wf(),
            b < old(self)@.len(),
        ensures
            final(self).wf(),
            final(self)@ == with_statements(old(self)@, b as int, statements@),
    {
        let ghost s = statements@;
        self.blocks[b].statements = statements;
        assert(self@ =~= with_statements(old(self)@, b as int, s));
    }
}

} // verus!
