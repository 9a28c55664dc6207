//! What a statement is, by its tag.

use crate::messages::{debug_string, join2, join3};
use crate::parser::{Parser, Tag};
use crate::syntax::SyntaxKind;
use crate::template::Keyword;
use crate::template_grammar::{s_push_tag, sp_tag, tag_finishes};
use vstd::prelude::*;

verus! {

impl Parser {
    /// The part of a statement that its tag decides. Returns whether the
    /// statement ends a block.
    pub(crate) fn parse_tag(&mut self, word: Keyword, name: &str) -> (finished_block: bool)
        requires
            old(self).pending(0),
            old(self).at_tag(),
        ensures
            final(self).pending(if finished_block { 2int } else { 1int }),
            final(self).keeps(*old(self), 0),
            final(self).pos > old(self).pos,
            final(self).state() == sp_tag(old(self).toks(), old(self).state(), word, name@),
            finished_block == tag_finishes(old(self).state(), word),
            final(self).holds_opening(*old(self)),
    {
        proof {
            reveal(sp_tag);
        }
        match word {
            Keyword::For => {
                let ghost before = self.state();
                self.tag_stack.push(Tag::For);
                assert(self.state() == s_push_tag(before, Tag::For));
                self.parse_for();
                false
            },
            Keyword::EndFor => {
                let tags = [Tag::For, Tag::ForElse];
                assert(tags@ =~= seq![Tag::For, Tag::ForElse]);
                self.parse_endtag("endfor", SyntaxKind::ForEnd, &tags)
            },
            Keyword::If => {
                let ghost before = self.state();
                self.tag_stack.push(Tag::If);
                assert(self.state() == s_push_tag(before, Tag::If));
                self.parse_if();
                false
            },
            Keyword::Elif => {
                self.parse_elif_tag();
                false
            },
            Keyword::EndIf => {
                let tags = [Tag::If, Tag::Elif, Tag::IfElse];
                assert(tags@ =~= seq![Tag::If, Tag::Elif, Tag::IfElse]);
                self.parse_endtag("endif", SyntaxKind::IfEnd, &tags)
            },
            Keyword::Else => {
                self.parse_else_tag();
                false
            },
            Keyword::Assign => {
                if self.parse_set() {
                    let ghost before = self.state();
                    self.tag_stack.push(Tag::SetBlock);
                    assert(self.state() == s_push_tag(before, Tag::SetBlock));
                }
                false
            },
            Keyword::EndAssign => {
                let tags = [Tag::SetBlock];
                assert(tags@ =~= seq![Tag::SetBlock]);
                self.parse_endtag("endset", SyntaxKind::AssignBlockEnd, &tags)
            },
            Keyword::Call => {
                let ghost before = self.state();
                self.tag_stack.push(Tag::Call);
                assert(self.state() == s_push_tag(before, Tag::Call));
                self.parse_call_block();
                false
            },
            Keyword::EndCall => {
                let tags = [Tag::Call];
                assert(tags@ =~= seq![Tag::Call]);
                self.parse_endtag("endcall", SyntaxKind::CallBlockEnd, &tags)
            },
            Keyword::Filter => {
                let ghost before = self.state();
                self.tag_stack.push(Tag::Filter);
                assert(self.state() == s_push_tag(before, Tag::Filter));
                self.parse_filter_block();
                false
            },
            Keyword::EndFilter => {
                let tags = [Tag::Filter];
                assert(tags@ =~= seq![Tag::Filter]);
                self.parse_endtag("endfilter", SyntaxKind::FilterBlockEnd, &tags)
            },
            Keyword::Do => {
                self.parse_do();
                false
            },
            Keyword::Macro => {
                self.open_root_block(Tag::Macro);
                self.parse_macro();
                false
            },
            Keyword::EndMacro => {
                let tags = [Tag::Macro];
                assert(tags@ =~= seq![Tag::Macro]);
                self.parse_endtag("endmacro", SyntaxKind::MacroBlockEnd, &tags)
            },
            Keyword::Materialization => {
                self.open_root_block(Tag::Materialization);
                self.parse_dbt_materialization();
                false
            },
            Keyword::EndMaterialization => {
                let tags = [Tag::Materialization];
                assert(tags@ =~= seq![Tag::Materialization]);
                self.parse_endtag("endmaterialization", SyntaxKind::MaterializationBlockEnd, &tags)
            },
            Keyword::Test => {
                self.open_root_block(Tag::Test);
                self.parse_dbt_test();
                false
            },
            Keyword::EndTest => {
                let tags = [Tag::Test];
                assert(tags@ =~= seq![Tag::Test]);
                self.parse_endtag("endtest", SyntaxKind::TestBlockEnd, &tags)
            },
            Keyword::Docs => {
                self.open_root_block(Tag::Docs);
                self.parse_dbt_docs();
                false
            },
            Keyword::EndDocs => {
                let tags = [Tag::Docs];
                assert(tags@ =~= seq![Tag::Docs]);
                self.parse_endtag("enddocs", SyntaxKind::DocsBlockEnd, &tags)
            },
            Keyword::Snapshot => {
                self.open_root_block(Tag::Snapshot);
                self.parse_dbt_snapshot();
                false
            },
            Keyword::EndSnapshot => {
                let tags = [Tag::Snapshot];
                assert(tags@ =~= seq![Tag::Snapshot]);
                self.parse_endtag("endsnapshot", SyntaxKind::SnapshotBlockEnd, &tags)
            },
            Keyword::Unsupported => {
                self.start_node(SyntaxKind::StmtUnknown);
                self.bump();
                let quoted = debug_string(name);
                self.error(
                    join3("not parsing tag ", quoted.as_str(), "; currently unsupported"),
                );
                false
            },
            Keyword::Raw => {
                self.start_node(SyntaxKind::StmtUnknown);
                self.bump();
                self.error_str("raw tag can't have any arguments");
                false
            },
            Keyword::EndRaw => {
                self.start_node(SyntaxKind::StmtUnknown);
                self.bump();
                self.error_str("found unmatched endraw tag");
                false
            },
            Keyword::Unknown => {
                self.start_node(SyntaxKind::StmtUnknown);
                self.bump();
                let quoted = debug_string(name);
                self.error(join2("found unknown tag ", quoted.as_str()));
                false
            },
        }
    }
}

} // verus!
