//! Reading a macro's input without its groups: the tokens inside a group
//! come in place of the group, in depth-first order.

use vstd::prelude::*;
use crate::misc::{Token, TokenIter, TokenKind};

verus! {

/// A token that is no group.
#[derive(Debug)]
pub enum FlatTree {
    /// An identifier, with its source text and its `{:?}` text.
    Ident { text: String, debug: String },
    /// A punctuation character.
    Punct(()),
    /// A literal.
    Literal(()),
}

/// What a `FlatTree` holds, as text.
pub enum FlatView {
    Ident { text: Seq<char>, debug: Seq<char> },
    Punct,
    Literal,
}

impl View for FlatTree {
    type V = FlatView;

    open spec fn view(&self) -> FlatView {
        match self {
            FlatTree::Ident { text, debug } => FlatView::Ident { text: text@, debug: debug@ },
            FlatTree::Punct(_) => FlatView::Punct,
            FlatTree::Literal(_) => FlatView::Literal,
        }
    }
}

/// The flat form of a token that is no group.
pub open spec fn flat_of(token: Token) -> FlatView {
    match token.kind {
        TokenKind::Ident => FlatView::Ident { text: token.text@, debug: token.debug@ },
        TokenKind::Punct => FlatView::Punct,
        _ => FlatView::Literal,
    }
}

/// The tokens of `tokens` without their groups, depth first.
pub open spec fn flattened(tokens: Seq<Token>) -> Seq<FlatView>
    decreases tokens,
{
    if tokens.len() == 0 {
        Seq::empty()
    } else {
        let first = tokens[0];
        let head = if first.kind == TokenKind::Group {
            flattened(first.children@)
        } else {
            seq![flat_of(first)]
        };
        head + flattened(tokens.drop_first())
    }
}

/// The number of tokens in `tokens`, those inside groups counted too.
spec fn nodes(tokens: Seq<Token>) -> nat
    decreases tokens,
{
    if tokens.len() == 0 {
        0
    } else {
        let first = tokens[0];
        let inside = if first.kind == TokenKind::Group {
            nodes(first.children@)
        } else {
            0
        };
        1 + inside + nodes(tokens.drop_first())
    }
}

/// What is left to come from a stack of readers: the innermost, which is
/// the last, is read to its end before the one below it goes on.
pub open spec fn stack_flattened(stack: Seq<TokenIter>) -> Seq<FlatView>
    decreases stack.len(),
{
    if stack.len() == 0 {
        Seq::empty()
    } else {
        flattened(stack.last().rest()) + stack_flattened(stack.drop_last())
    }
}

spec fn stack_nodes(stack: Seq<TokenIter>) -> nat
    decreases stack.len(),
{
    if stack.len() == 0 {
        0
    } else {
        nodes(stack.last().rest()) + stack_nodes(stack.drop_last())
    }
}

/// Reads tokens depth first, groups left out.
pub struct FlatIterator<'a> {
    inner: Vec<TokenIter<'a>>,
}

impl<'a> FlatIterator<'a> {
    /// The flat tokens that are still to come, in order.
    pub closed spec fn remaining(&self) -> Seq<FlatView> {
        stack_flattened(self.inner@)
    }

    /// Starts reading at the first token of `tokens`.
    pub fn new(tokens: &'a Vec<Token>) -> (iter: FlatIterator<'a>)
        ensures
            iter.remaining() == flattened(tokens@),
    {
        let first = TokenIter::new(tokens);
        let mut inner: Vec<TokenIter<'a>> = Vec::new();
        inner.push(first);
        proof {
            assert(inner@.last() == first);
            assert(inner@.drop_last() =~= Seq::<TokenIter>::empty());
            assert(stack_flattened(inner@.drop_last()) =~= Seq::<FlatView>::empty());
            assert(stack_flattened(inner@) =~= flattened(tokens@));
        }
        FlatIterator { inner }
    }

    /// The next flat token, or `None` when all have been read.
    pub fn next(&mut self) -> (item: Option<FlatTree>)
        ensures
            old(self).remaining().len() == 0 ==> item is None && final(self).remaining().len() == 0,
            old(self).remaining().len() > 0 ==> item is Some && item->0@ == old(self).remaining()[0]
                && final(self).remaining() == old(self).remaining().drop_first(),
    {
        loop
            invariant
                self.remaining() == old(self).remaining(),
            decreases 2 * stack_nodes(self.inner@) + self.inner@.len(),
        {
            if self.inner.len() == 0 {
                return None;
            }
            let ghost stack = self.inner@;
            let mut next_iterator = self.inner.pop().unwrap();
            let ghost below = self.inner@;
            let ghost rest = next_iterator.rest();
            assert(below =~= stack.drop_last());
            match next_iterator.next() {
                None => {
                    assert(flattened(rest) =~= Seq::<FlatView>::empty());
                    assert(nodes(rest) == 0);
                    continue ;
                },
                Some(tree) => {
                    let ghost later = next_iterator.rest();
                    assert(later == rest.drop_first());
                    self.inner.push(next_iterator);
                    assert(self.inner@.drop_last() =~= below);
                    match tree.kind {
                        TokenKind::Group => {
                            let ghost advanced = self.inner@;
                            let new_iterator = TokenIter::new(&tree.children);
                            self.inner.push(new_iterator);
                            proof {
                                assert(self.inner@.drop_last() =~= advanced);
                                assert(advanced.last() == next_iterator);
                                assert(advanced.drop_last() =~= below);
                                assert(stack_flattened(advanced) =~= flattened(later)
                                    + stack_flattened(below));
                                assert(stack_nodes(advanced) == nodes(later) + stack_nodes(below));
                                assert(stack_flattened(self.inner@) =~= flattened(tree.children@)
                                    + (flattened(later) + stack_flattened(below)));
                                assert(stack_nodes(self.inner@) == nodes(tree.children@) + (nodes(
                                    later,
                                ) + stack_nodes(below)));
                            }
                            continue ;
                        },
                        TokenKind::Ident => {
                            proof {
                                assert(stack_flattened(stack) =~= seq![flat_of(*tree)] + (flattened(
                                    later,
                                ) + stack_flattened(below)));
                                assert(self.remaining() =~= old(self).remaining().drop_first());
                            }
                            return Some(
                                FlatTree::Ident { text: tree.text.clone(), debug: tree.debug.clone() },
                            );
                        },
                        TokenKind::Punct => {
                            proof {
                                assert(stack_flattened(stack) =~= seq![flat_of(*tree)] + (flattened(
                                    later,
                                ) + stack_flattened(below)));
                                assert(self.remaining() =~= old(self).remaining().drop_first());
                            }
                            return Some(FlatTree::Punct(()));
                        },
                        TokenKind::Literal => {
                            proof {
                                assert(stack_flattened(stack) =~= seq![flat_of(*tree)] + (flattened(
                                    later,
                                ) + stack_flattened(below)));
                                assert(self.remaining() =~= old(self).remaining().drop_first());
                            }
                            return Some(FlatTree::Literal(()));
                        },
                    }
                },
            }
        }
    }
}

} // verus!
