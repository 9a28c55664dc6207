//! The blocks that statements open and close.

use crate::messages::join3;
use crate::parser::{tag_in, Parser, Tag};
use crate::syntax::SyntaxKind;
use crate::template::kept_tags;
use crate::template_grammar::{
    s_pop_tag, s_push_tag, sp_elif_tag, sp_else_tag, sp_empty_until, sp_endtag, sp_root_block,
    sp_unmatched, sp_unwind, tag_open,
};
use vstd::prelude::*;

verus! {

impl Parser {
    /// Closes the blocks above the topmost open block that is among
    /// `end_tags`, with a diagnostic for each; where no open block is among
    /// them, nothing is closed. Returns whether one was.
    pub(crate) fn empty_tag_stack_until(&mut self, end_tags: &[Tag]) -> (found: bool)
        requires
            old(self).pending(0),
        ensures
            final(self).pending(0),
            final(self).keeps(*old(self), 0),
            final(self).pos == old(self).pos,
            found == tag_open(old(self).state(), end_tags@),
            found ==> final(self).tag_stack@ == old(self).tag_stack@.take(
                kept_tags(old(self).tag_stack@, end_tags@, old(self).tag_stack@.len() as int),
            ) && end_tags@.contains(final(self).tag_stack@.last()),
            !found ==> final(self).tag_stack@ == old(self).tag_stack@ && final(self).builder == old(
                self,
            ).builder,
            final(self).errors@.len() == old(self).errors@.len() + old(self).tag_stack@.len()
                - final(self).tag_stack@.len(),
            final(self).tag_stack@.len() == old(self).tag_stack@.len() ==> final(self).builder
                == old(self).builder,
            final(self).state() == sp_empty_until(old(self).state(), end_tags@),
    {
        proof {
            reveal(sp_unwind);
        }
        let mut keep: usize = self.tag_stack.len();
        while keep > 0 && !tag_in(end_tags, self.tag_stack[keep - 1])
            invariant
                keep <= self.tag_stack@.len(),
                *self == *old(self),
                kept_tags(self.tag_stack@, end_tags@, self.tag_stack@.len() as int) == kept_tags(
                    self.tag_stack@,
                    end_tags@,
                    keep as int,
                ),
            decreases keep,
        {
            keep -= 1;
        }
        if keep == 0 {
            return false;
        }
        let ghost target = sp_unwind(self.state(), keep as int);
        while self.tag_stack.len() > keep
            invariant
                old(self).pending(0),
                self.pending(0),
                self.keeps(*old(self), 0),
                self.pos == old(self).pos,
                0 < keep <= self.tag_stack@.len() <= old(self).tag_stack@.len(),
                self.tag_stack@ == old(self).tag_stack@.take(self.tag_stack@.len() as int),
                self.errors@.len() == old(self).errors@.len() + old(self).tag_stack@.len()
                    - self.tag_stack@.len(),
                self.tag_stack@.len() == old(self).tag_stack@.len() ==> self.builder == old(
                    self,
                ).builder,
                sp_unwind(self.state(), keep as int) == target,
            decreases self.tag_stack@.len(),
        {
            proof {
                reveal(sp_unwind);
            }
            let ghost before = self.state();
            let tag = self.tag_stack.pop().unwrap();
            assert(self.state() == s_pop_tag(before));
            self.finish_node();
            self.error(join3("expected tag ", tag.name(), " to be closed"));
            assert(self.tag_stack@ =~= old(self).tag_stack@.take(self.tag_stack@.len() as int));
        }
        true
    }

    /// The tag that ends a block. Where the block is open, the blocks above
    /// it are closed, and `true` is returned; where it is not, the tag is
    /// not known for what it is.
    pub(crate) fn parse_endtag(&mut self, endtag: &str, kind: SyntaxKind, tags_to_end: &[Tag]) -> (found:
        bool)
        requires
            old(self).pending(0),
            old(self).at_tag(),
            !tags_to_end@.contains(Tag::Root),
        ensures
            final(self).pending(if found { 2int } else { 1int }),
            final(self).keeps(*old(self), 0),
            final(self).pos > old(self).pos,
            final(self).state() == sp_endtag(
                old(self).toks(),
                old(self).state(),
                endtag@,
                kind,
                tags_to_end@,
            ),
            found == tag_open(old(self).state(), tags_to_end@),
            final(self).holds_opening(*old(self)),
    {
        proof {
            reveal(sp_endtag);
        }
        if self.empty_tag_stack_until(tags_to_end) {
            assert(self.tag_stack@.last() != Tag::Root);
            assert(self.tag_stack@.len() >= 2);
            let ghost closed = *self;
            self.tag_stack.pop();
            assert(self.tag_stack@ =~= closed.tag_stack@.drop_last());
            assert(self.state() == s_pop_tag(closed.state()));
            assert(self.pending(1));
            self.start_node(kind);
            assert(self.pending(2));
            self.bump_tag();
            true
        } else {
            self.error(join3("found unmatched \"", endtag, "\" statement"));
            self.start_node(SyntaxKind::StmtUnknown);
            self.bump();
            self.skip_ws();
            false
        }
    }

    /// Closes every block but `Root`, opens the block of a statement that
    /// stands at the top level only, and hands over to what parses its tag.
    pub(crate) fn open_root_block(&mut self, tag: Tag)
        requires
            old(self).pending(0),
            tag != Tag::Root,
        ensures
            final(self).pending(-1),
            final(self).keeps(*old(self), 0),
            final(self).pos == old(self).pos,
            final(self).state() == sp_root_block(old(self).state(), tag),
    {
        let root = [Tag::Root];
        assert(root@ =~= seq![Tag::Root]);
        self.empty_tag_stack_until(&root);
        let ghost before = self.state();
        self.tag_stack.push(tag);
        assert(self.state() == s_push_tag(before, tag));
    }

    /// In a statement whose tag is not known for what it is, the part up to
    /// the tag's name.
    pub(crate) fn parse_unmatched(&mut self, tag: &str)
        requires
            old(self).pending(0),
            old(self).pos < old(self).tokens@.len(),
        ensures
            final(self).pending(1),
            final(self).keeps(*old(self), 0),
            final(self).pos > old(self).pos,
            final(self).state() == sp_unmatched(old(self).toks(), old(self).state(), tag@),
            final(self).holds_opening(*old(self)),
    {
        self.error(join3("found unmatched \"", tag, "\" statement"));
        self.start_node(SyntaxKind::StmtUnknown);
        self.bump();
        self.skip_ws();
    }

    /// The tag of another branch of a condition.
    pub(crate) fn parse_elif_tag(&mut self)
        requires
            old(self).pending(0),
            old(self).at_tag(),
        ensures
            final(self).pending(1),
            final(self).keeps(*old(self), 0),
            final(self).pos > old(self).pos,
            final(self).state() == sp_elif_tag(old(self).toks(), old(self).state()),
            final(self).holds_opening(*old(self)),
    {
        let tags = [Tag::If, Tag::Elif];
        assert(tags@ =~= seq![Tag::If, Tag::Elif]);
        if self.empty_tag_stack_until(&tags) {
            assert(self.tag_stack@.last() != Tag::Root);
            assert(self.tag_stack@.len() >= 2);
            let ghost closed = self.state();
            self.tag_stack.pop();
            self.tag_stack.push(Tag::Elif);
            assert(self.state() == s_push_tag(s_pop_tag(closed), Tag::Elif));
            self.parse_elif();
        } else {
            self.parse_unmatched("elif");
        }
    }

    /// The tag of the last branch of a condition, or of what a loop does
    /// when there was nothing to walk through.
    pub(crate) fn parse_else_tag(&mut self)
        requires
            old(self).pending(0),
            old(self).at_tag(),
        ensures
            final(self).pending(1),
            final(self).keeps(*old(self), 0),
            final(self).pos > old(self).pos,
            final(self).state() == sp_else_tag(old(self).toks(), old(self).state()),
            final(self).holds_opening(*old(self)),
    {
        let tags = [Tag::For, Tag::If, Tag::Elif];
        assert(tags@ =~= seq![Tag::For, Tag::If, Tag::Elif]);
        if self.empty_tag_stack_until(&tags) {
            assert(self.tag_stack@.last() != Tag::Root);
            assert(self.tag_stack@.len() >= 2);
            let ghost closed = self.state();
            let last_tag = self.tag_stack.pop().unwrap();
            match last_tag {
                Tag::For => {
                    self.tag_stack.push(Tag::ForElse);
                    assert(self.state() == s_push_tag(s_pop_tag(closed), Tag::ForElse));
                    self.start_node(SyntaxKind::ForElse);
                },
                _ => {
                    self.tag_stack.push(Tag::IfElse);
                    assert(self.state() == s_push_tag(s_pop_tag(closed), Tag::IfElse));
                    self.start_node(SyntaxKind::IfElse);
                },
            }
            self.bump_tag();
        } else {
            self.parse_unmatched("else");
        }
    }
}

} // verus!
