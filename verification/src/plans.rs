//! Which generators the fuzzer draws message parameters from, by the
//! configuration it runs with. Entries that occur several times are drawn
//! more often.
use vstd::prelude::*;

use crate::fuzz_state::FuzzState;
use crate::generation::{same_replies, FallbackGenerator, GenerationError, GeneratorBag, LspParamsGenerator};
use crate::lsp_input::LspInput;
use crate::range_selectors::{range_in_doc_gives_nothing, selection_outcome, RangeInDocGenerator, RangeSelectorKind};
use crate::selection::{DocumentSelection, InvalidSelectionGenerator};
use crate::uri::{accepted_uri, spec_virtual_uri_text};

verus! {

/// What the generators may rely on.
#[derive(Debug, Clone, Copy, PartialEq, Eq)]
pub struct GeneratorsConfig {
    /// Generators look at the input's documents.
    pub ctx_awareness: bool,
    /// Generators look at the documents' syntax trees.
    pub grammar_ops: bool,
    /// Ranges outside the documents are generated too.
    pub invalid_ranges: bool,
    /// Generators use what the server replied before.
    pub feedback_guidance: bool,
    /// Positions outside the documents are generated too.
    pub invalid_positions: bool,
}

impl GeneratorsConfig {
    pub fn use_context(&self) -> (r: bool)
        ensures
            r == self.ctx_awareness,
    {
        self.ctx_awareness
    }

    pub fn use_grammar_ops(&self) -> (r: bool)
        ensures
            r == self.grammar_ops,
    {
        self.grammar_ops
    }

    pub fn allow_invalid_ranges(&self) -> (r: bool)
        ensures
            r == self.invalid_ranges,
    {
        self.invalid_ranges
    }

    pub fn use_feedback_guidance(&self) -> (r: bool)
        ensures
            r == self.feedback_guidance,
    {
        self.feedback_guidance
    }
}

/// `n` copies of `x`.
pub open spec fn copies<T>(x: T, n: nat) -> Seq<T> {
    Seq::new(n, |_i: int| x)
}

/// A generator of document selections.
#[derive(Debug, Clone, Copy, PartialEq, Eq)]
pub enum SelectionGenerator {
    /// A range chosen in a random source file.
    RangeInDoc(RangeSelectorKind),
    /// A range chosen in a random source file; a subtree of that file when
    /// the selector has nothing to give.
    RangeInDocOrSubtree(RangeSelectorKind),
    /// A random range in a document that does not exist.
    InvalidSelection,
}

/// The document selection generators for a configuration.
pub open spec fn spec_selection_plan(config: GeneratorsConfig) -> Seq<SelectionGenerator> {
    if config.ctx_awareness {
        seq![SelectionGenerator::RangeInDoc(RangeSelectorKind::WholeRange)] + copies(
            SelectionGenerator::RangeInDoc(RangeSelectorKind::RandomValidRange),
            2,
        ) + (if config.grammar_ops {
            copies(SelectionGenerator::RangeInDoc(RangeSelectorKind::SubtreeNodeType), 5)
        } else {
            Seq::empty()
        }) + (if config.invalid_ranges {
            seq![
                SelectionGenerator::RangeInDoc(RangeSelectorKind::AfterRange),
                SelectionGenerator::RangeInDoc(RangeSelectorKind::InvertedRange),
                SelectionGenerator::RangeInDoc(RangeSelectorKind::RandomInvalidRange),
            ]
        } else {
            Seq::empty()
        }) + (if config.feedback_guidance {
            seq![SelectionGenerator::RangeInDocOrSubtree(RangeSelectorKind::DiagnosedRange)]
                + copies(SelectionGenerator::RangeInDocOrSubtree(RangeSelectorKind::DiagnosedParent), 2)
                + copies(SelectionGenerator::RangeInDocOrSubtree(RangeSelectorKind::SymbolsRange), 4)
        } else {
            Seq::empty()
        })
    } else {
        copies(SelectionGenerator::InvalidSelection, 5)
    }
}

/// What the selection generator `tag` may give for `input` from `state`:
/// a range chosen by its selector in a source file; for a fallback, else one
/// chosen by `SubtreeNodeType`; for an invalid selection, a range with
/// coordinates under 1024 in the document `lsp-fuzz://<uri_content>`, nothing
/// when that is no URI. None of them fails.
pub open spec fn selection_generated(
    tag: SelectionGenerator,
    state: FuzzState,
    input: LspInput,
    uri_content: Seq<char>,
    r: Result<DocumentSelection, GenerationError>,
) -> bool {
    match tag {
        SelectionGenerator::RangeInDoc(k) => match r {
            Ok(sel) => selection_outcome(input.workspace@, k, state, sel),
            Err(GenerationError::NothingGenerated) => range_in_doc_gives_nothing(input, k),
            Err(GenerationError::Error(_)) => false,
        },
        SelectionGenerator::RangeInDocOrSubtree(k) => match r {
            Ok(sel) => selection_outcome(input.workspace@, k, state, sel) || exists|mid: FuzzState|
                #![trigger selection_outcome(input.workspace@, RangeSelectorKind::SubtreeNodeType, mid, sel)]
                same_replies(mid, state) && selection_outcome(
                    input.workspace@,
                    RangeSelectorKind::SubtreeNodeType,
                    mid,
                    sel,
                ),
            Err(GenerationError::NothingGenerated) => range_in_doc_gives_nothing(input, k)
                && range_in_doc_gives_nothing(input, RangeSelectorKind::SubtreeNodeType),
            Err(GenerationError::Error(_)) => false,
        },
        SelectionGenerator::InvalidSelection => match r {
            Ok(sel) => accepted_uri(spec_virtual_uri_text(uri_content)) && sel.0.uri@ == spec_virtual_uri_text(
                uri_content,
            ) && sel.1.start.line < 1024 && sel.1.start.character < 1024 && sel.1.end.line < 1024
                && sel.1.end.character < 1024,
            Err(GenerationError::NothingGenerated) => !accepted_uri(spec_virtual_uri_text(uri_content)),
            Err(GenerationError::Error(_)) => false,
        },
    }
}

/// Generates a document selection with the generator `tag` stands for:
/// `RangeInDocGenerator` with its selector, that generator falling back to
/// `SubtreeNodeType`, or `InvalidSelectionGenerator` on the document
/// `lsp-fuzz://<uri_content>`.
pub fn generate_selection(
    tag: SelectionGenerator,
    state: &mut FuzzState,
    input: &LspInput,
    uri_content: &str,
) -> (r: Result<DocumentSelection, GenerationError>)
    ensures
        final(state).response_info == old(state).response_info,
        selection_generated(tag, *old(state), *input, uri_content@, r),
{
    match tag {
        SelectionGenerator::RangeInDoc(k) => {
            let g = RangeInDocGenerator::new(k);
            g.generate(state, input)
        },
        SelectionGenerator::RangeInDocOrSubtree(k) => {
            let g = FallbackGenerator::new(
                RangeInDocGenerator::new(k),
                RangeInDocGenerator::new(RangeSelectorKind::SubtreeNodeType),
            );
            g.generate(state, input)
        },
        SelectionGenerator::InvalidSelection => {
            let g = InvalidSelectionGenerator::new();
            match g.generate_with(state, uri_content) {
                Some(sel) => Ok(sel),
                None => Err(GenerationError::NothingGenerated),
            }
        },
    }
}

fn push_copies<T: Copy>(bag: &mut GeneratorBag<T>, item: T, n: usize)
    ensures
        final(bag)@ == old(bag)@ + copies(item, n as nat),
{
    let mut k: usize = 0;
    while k < n
        invariant
            k <= n,
            bag@ == old(bag)@ + copies(item, k as nat),
        decreases n - k,
    {
        bag.push(item);
        assert(old(bag)@ + copies(item, (k + 1) as nat) =~= (old(bag)@ + copies(item, k as nat)).push(item));
        k = k + 1;
    }
}

/// The generators of document selections for a configuration.
pub fn selection_plan(config: &GeneratorsConfig) -> (r: Vec<SelectionGenerator>)
    ensures
        r@ == spec_selection_plan(*config),
{
    let mut generators: GeneratorBag<SelectionGenerator> = GeneratorBag::with_capacity(16);
    if config.use_context() {
        generators.push(SelectionGenerator::RangeInDoc(RangeSelectorKind::WholeRange));
        push_copies(&mut generators, SelectionGenerator::RangeInDoc(RangeSelectorKind::RandomValidRange), 2);
        let ghost base = generators@;
        if config.use_grammar_ops() {
            push_copies(&mut generators, SelectionGenerator::RangeInDoc(RangeSelectorKind::SubtreeNodeType), 5);
        }
        let ghost with_grammar = generators@;
        if config.allow_invalid_ranges() {
            generators.extend(vec![
                SelectionGenerator::RangeInDoc(RangeSelectorKind::AfterRange),
                SelectionGenerator::RangeInDoc(RangeSelectorKind::InvertedRange),
                SelectionGenerator::RangeInDoc(RangeSelectorKind::RandomInvalidRange),
            ]);
        }
        let ghost with_invalid = generators@;
        if config.use_feedback_guidance() {
            generators.push(SelectionGenerator::RangeInDocOrSubtree(RangeSelectorKind::DiagnosedRange));
            push_copies(&mut generators, SelectionGenerator::RangeInDocOrSubtree(RangeSelectorKind::DiagnosedParent), 2);
            push_copies(&mut generators, SelectionGenerator::RangeInDocOrSubtree(RangeSelectorKind::SymbolsRange), 4);
        }
        proof {
            let fb = if config.feedback_guidance {
                seq![SelectionGenerator::RangeInDocOrSubtree(RangeSelectorKind::DiagnosedRange)]
                    + copies(SelectionGenerator::RangeInDocOrSubtree(RangeSelectorKind::DiagnosedParent), 2)
                    + copies(SelectionGenerator::RangeInDocOrSubtree(RangeSelectorKind::SymbolsRange), 4)
            } else {
                Seq::empty()
            };
            assert(generators@ =~= with_invalid + fb);
        }
        assert(generators@ =~= spec_selection_plan(*config));
    } else {
        push_copies(&mut generators, SelectionGenerator::InvalidSelection, 5);
        assert(generators@ =~= spec_selection_plan(*config));
    }
    generators.finish()
}

/// How a position is chosen in a document.
#[derive(Debug, Clone, Copy, PartialEq, Eq)]
pub enum PositionSelectorKind {
    /// A position on a character of the document.
    Valid,
    /// The start of a leaf of the syntax tree.
    TerminalStart,
    /// The start of a highlight capture, steering towards rarely used groups.
    HighlightSteer,
    /// Any position up to the bound.
    Random(usize),
}

/// Which positions a feedback-guided generator draws from.
#[derive(Debug, Clone, Copy, PartialEq, Eq)]
pub enum FeedbackPositionKind {
    /// Starts of the nodes inside diagnosed ranges.
    DiagNodes,
    /// Starts of the parents of diagnosed nodes.
    DiagNodesParent,
    /// Starts of the nodes inside reported symbols.
    CollectedSymbols,
}

/// A generator of document positions.
#[derive(Debug, Clone, Copy, PartialEq, Eq)]
pub enum PositionGenerator {
    /// A position chosen in a random source file.
    InRandomDoc(PositionSelectorKind),
    /// A position from the server's feedback; the selector's choice when
    /// there is none.
    FeedbackOr(FeedbackPositionKind, PositionSelectorKind),
    /// A random position in a document that does not exist.
    InvalidDocPosition,
}

/// The document position generators for a configuration.
pub open spec fn spec_position_plan(config: GeneratorsConfig) -> Seq<PositionGenerator> {
    if config.ctx_awareness {
        copies(PositionGenerator::InRandomDoc(PositionSelectorKind::Valid), 2) + copies(
            PositionGenerator::InRandomDoc(PositionSelectorKind::TerminalStart),
            3,
        ) + copies(PositionGenerator::InRandomDoc(PositionSelectorKind::HighlightSteer), 3) + (
        if config.feedback_guidance {
            seq![
                PositionGenerator::FeedbackOr(FeedbackPositionKind::DiagNodes, PositionSelectorKind::TerminalStart),
                PositionGenerator::FeedbackOr(FeedbackPositionKind::DiagNodes, PositionSelectorKind::Valid),
            ] + copies(
                PositionGenerator::FeedbackOr(
                    FeedbackPositionKind::DiagNodesParent,
                    PositionSelectorKind::HighlightSteer,
                ),
                4,
            ) + copies(
                PositionGenerator::FeedbackOr(
                    FeedbackPositionKind::CollectedSymbols,
                    PositionSelectorKind::TerminalStart,
                ),
                7,
            )
        } else {
            Seq::empty()
        }) + (if config.invalid_positions {
            seq![PositionGenerator::InRandomDoc(PositionSelectorKind::Random(1024))]
        } else {
            Seq::empty()
        })
    } else {
        copies(PositionGenerator::InvalidDocPosition, 4)
    }
}

/// The generators of document positions for a configuration.
pub fn position_plan(config: &GeneratorsConfig) -> (r: Vec<PositionGenerator>)
    ensures
        r@ == spec_position_plan(*config),
{
    let mut generators: GeneratorBag<PositionGenerator> = GeneratorBag::new();
    if config.ctx_awareness {
        push_copies(&mut generators, PositionGenerator::InRandomDoc(PositionSelectorKind::Valid), 2);
        push_copies(&mut generators, PositionGenerator::InRandomDoc(PositionSelectorKind::TerminalStart), 3);
        push_copies(&mut generators, PositionGenerator::InRandomDoc(PositionSelectorKind::HighlightSteer), 3);
        let ghost base = generators@;
        if config.feedback_guidance {
            generators.push(
                PositionGenerator::FeedbackOr(FeedbackPositionKind::DiagNodes, PositionSelectorKind::TerminalStart),
            );
            generators.push(
                PositionGenerator::FeedbackOr(FeedbackPositionKind::DiagNodes, PositionSelectorKind::Valid),
            );
            push_copies(
                &mut generators,
                PositionGenerator::FeedbackOr(
                    FeedbackPositionKind::DiagNodesParent,
                    PositionSelectorKind::HighlightSteer,
                ),
                4,
            );
            push_copies(
                &mut generators,
                PositionGenerator::FeedbackOr(
                    FeedbackPositionKind::CollectedSymbols,
                    PositionSelectorKind::TerminalStart,
                ),
                7,
            );
        }
        let ghost with_feedback = generators@;
        if config.invalid_positions {
            generators.push(PositionGenerator::InRandomDoc(PositionSelectorKind::Random(1024)));
        }
        proof {
            let fb = if config.feedback_guidance {
                seq![
                    PositionGenerator::FeedbackOr(FeedbackPositionKind::DiagNodes, PositionSelectorKind::TerminalStart),
                    PositionGenerator::FeedbackOr(FeedbackPositionKind::DiagNodes, PositionSelectorKind::Valid),
                ] + copies(
                    PositionGenerator::FeedbackOr(
                        FeedbackPositionKind::DiagNodesParent,
                        PositionSelectorKind::HighlightSteer,
                    ),
                    4,
                ) + copies(
                    PositionGenerator::FeedbackOr(
                        FeedbackPositionKind::CollectedSymbols,
                        PositionSelectorKind::TerminalStart,
                    ),
                    7,
                )
            } else {
                Seq::empty()
            };
            assert(with_feedback =~= base + fb);
        }
        assert(generators@ =~= spec_position_plan(*config));
    } else {
        push_copies(&mut generators, PositionGenerator::InvalidDocPosition, 4);
        assert(generators@ =~= spec_position_plan(*config));
    }
    generators.finish()
}

/// A generator of document identifiers.
#[derive(Debug, Clone, Copy, PartialEq, Eq)]
pub enum IdentifierGenerator {
    /// Names a random source file of the input.
    SourceFile,
    /// Names a document that does not exist.
    Meaningless,
}

/// The document identifier generators for a configuration.
pub fn identifier_plan(config: &GeneratorsConfig) -> (r: Vec<IdentifierGenerator>)
    ensures
        r@ == (if config.ctx_awareness {
            seq![IdentifierGenerator::SourceFile]
        } else {
            seq![IdentifierGenerator::Meaningless]
        }),
{
    let mut generators: Vec<IdentifierGenerator> = Vec::new();
    if config.ctx_awareness {
        generators.push(IdentifierGenerator::SourceFile);
    } else {
        generators.push(IdentifierGenerator::Meaningless);
    }
    generators
}

/// The range selectors of the plain range-in-document generators, whatever
/// the configuration.
pub fn range_in_doc_plan() -> (r: Vec<RangeSelectorKind>)
    ensures
        r@ == seq![
            RangeSelectorKind::WholeRange,
            RangeSelectorKind::RandomValidRange,
            RangeSelectorKind::RandomValidRange,
            RangeSelectorKind::AfterRange,
            RangeSelectorKind::InvertedRange,
            RangeSelectorKind::RandomSubtree,
        ],
{
    let r = vec![
        RangeSelectorKind::WholeRange,
        RangeSelectorKind::RandomValidRange,
        RangeSelectorKind::RandomValidRange,
        RangeSelectorKind::AfterRange,
        RangeSelectorKind::InvertedRange,
        RangeSelectorKind::RandomSubtree,
    ];
    r
}

} // verus!
