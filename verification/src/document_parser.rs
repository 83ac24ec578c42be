//! Input buffering, lifetime and signal bookkeeping of a live document parser.
//!
//! The tokenizer and tree builder are driven elsewhere; this module owns what
//! a parser session decides on its own: which chunk the parser consumes next,
//! when the parser may finish, which waits suspend it, and how the signals it
//! discovers accumulate.

use std::collections::VecDeque;
use vstd::prelude::*;

verus! {

/// The byte length of a text in UTF-8.
pub open spec fn utf8_len(text: Seq<char>) -> nat {
    vstd::utf8::encode_utf8(text).len()
}

/// An optional string, by view.
pub open spec fn opt_chunk(chunk: Option<String>) -> Option<Seq<char>> {
    match chunk {
        Some(c) => Some(c@),
        None => None,
    }
}

/// The identity of a DOM node owned by the native DOM.
#[derive(Clone, Copy, Debug, PartialEq, Eq, Hash)]
pub struct NativeNodeId(pub u64);

/// Network chunks waiting for the parser, and the chunk it is consuming.
pub struct ParserInputBuffer {
    queued_chunks: VecDeque<String>,
    current_chunk: Option<String>,
}

/// The abstract state of a [`ParserInputBuffer`].
pub struct ParserInputView {
    pub queued: Seq<Seq<char>>,
    pub current: Option<Seq<char>>,
}

/// The chunks a buffer still holds, in the order the parser will see them.
pub open spec fn remaining_chunks(v: ParserInputView) -> Seq<Seq<char>> {
    match v.current {
        Some(c) => seq![c] + v.queued,
        None => v.queued,
    }
}

/// The buffer after making sure a chunk is current, given the script-inserted
/// input the parser stream had waiting (if any).
///
/// Script-inserted input preempts the network: it becomes current and a
/// non-empty network chunk that was current goes back to the front of the
/// queue.  Without script input, the front of the queue becomes current when
/// nothing is.
pub open spec fn ensured(v: ParserInputView, script_input: Option<Seq<char>>) -> ParserInputView {
    match script_input {
        Some(s) => ParserInputView {
            queued: match v.current {
                Some(c) => if c.len() > 0 {
                    seq![c] + v.queued
                } else {
                    v.queued
                },
                None => v.queued,
            },
            current: Some(s),
        },
        None => match v.current {
            Some(_) => v,
            None => if v.queued.len() > 0 {
                ParserInputView { queued: v.queued.drop_first(), current: Some(v.queued[0]) }
            } else {
                v
            },
        },
    }
}

impl View for ParserInputBuffer {
    type V = ParserInputView;

    closed spec fn view(&self) -> ParserInputView {
        ParserInputView {
            queued: self.queued_chunks@.map_values(|c: String| c@),
            current: opt_chunk(self.current_chunk),
        }
    }
}

impl ParserInputBuffer {
    /// An empty buffer.
    pub fn new() -> (buffer: Self)
        ensures
            buffer@.queued.len() == 0,
            buffer@.current is None,
    {
        ParserInputBuffer { queued_chunks: VecDeque::new(), current_chunk: None }
    }

    /// Queues a chunk that arrived from the network; an empty chunk is
    /// ignored.
    pub fn queue_arrived_chunk(&mut self, html: String)
        ensures
            final(self)@.current == old(self)@.current,
            final(self)@.queued == if html@.len() > 0 {
                old(self)@.queued.push(html@)
            } else {
                old(self)@.queued
            },
    {
        if !html.as_str().is_empty() {
            let ghost before = self.queued_chunks@;
            self.queued_chunks.push_back(html);
            proof {
                assert(self.queued_chunks@.map_values(|c: String| c@) =~= before.map_values(
                    |c: String| c@,
                ).push(html@));
            }
        }
    }

    /// Makes sure a chunk is current, letting script-inserted input (what the
    /// parser stream had waiting) preempt the network chunk.
    pub fn ensure_current_chunk(&mut self, script_input_html: Option<String>)
        ensures
            final(self)@ == ensured(old(self)@, opt_chunk(script_input_html)),
    {
        let ghost before = self.queued_chunks@;
        if let Some(script_input_html) = script_input_html {
            if let Some(network_chunk) = self.current_chunk.take() {
                if !network_chunk.as_str().is_empty() {
                    self.queued_chunks.push_front(network_chunk);
                    proof {
                        assert(self.queued_chunks@.map_values(|c: String| c@) =~= seq![
                            network_chunk@,
                        ] + before.map_values(|c: String| c@));
                    }
                }
            }
            self.current_chunk = Some(script_input_html);
            return;
        }
        if self.current_chunk.is_none() {
            self.current_chunk = self.queued_chunks.pop_front();
            proof {
                if before.len() > 0 {
                    assert(self.queued_chunks@.map_values(|c: String| c@) =~= before.map_values(
                        |c: String| c@,
                    ).drop_first());
                }
            }
        }
    }

    /// Whether the buffer holds no chunk at all.
    pub fn is_empty(&self) -> (empty: bool)
        ensures
            empty == (self@.current is None && self@.queued.len() == 0),
    {
        self.current_chunk.is_none() && self.queued_chunks.len() == 0
    }

    /// The byte length of the current chunk, zero when there is none.
    pub fn current_chunk_len(&self) -> (len: usize)
        ensures
            len == match self@.current {
                Some(c) => utf8_len(c) as usize,
                None => 0,
            },
    {
        match &self.current_chunk {
            Some(chunk) => chunk.as_str().len(),
            None => 0,
        }
    }

    /// Whether no chunk is current.
    pub fn current_chunk_is_none(&self) -> (none: bool)
        ensures
            none == (self@.current is None),
    {
        self.current_chunk.is_none()
    }

    /// Whether the current chunk exists and is empty.
    pub fn current_chunk_is_empty(&self) -> (empty: bool)
        ensures
            empty == (self@.current matches Some(c) && c.len() == 0),
    {
        match &self.current_chunk {
            Some(chunk) => chunk.as_str().is_empty(),
            None => false,
        }
    }

    /// Takes the current chunk, or an empty chunk when there is none.
    pub fn take_current_chunk(&mut self) -> (chunk: String)
        ensures
            chunk@ == match old(self)@.current {
                Some(c) => c,
                None => Seq::<char>::empty(),
            },
            final(self)@ == (ParserInputView { current: None, ..old(self)@ }),
    {
        match self.current_chunk.take() {
            Some(chunk) => chunk,
            None => String::new(),
        }
    }

    /// Replaces the current chunk.
    pub fn set_current_chunk(&mut self, chunk: Option<String>)
        ensures
            final(self)@ == (ParserInputView { current: opt_chunk(chunk), ..old(self)@ }),
    {
        self.current_chunk = chunk;
    }

    /// Replaces the current chunk (test support).
    pub fn set_current_chunk_for_testing(&mut self, chunk: Option<String>)
        ensures
            final(self)@ == (ParserInputView { current: opt_chunk(chunk), ..old(self)@ }),
    {
        self.current_chunk = chunk;
    }

    /// The current chunk (test support).
    pub fn current_chunk_for_testing(&self) -> (chunk: Option<&str>)
        ensures
            match chunk {
                Some(c) => self@.current == Some(c@),
                None => self@.current is None,
            },
    {
        match &self.current_chunk {
            Some(chunk) => Some(chunk.as_str()),
            None => None,
        }
    }

    /// Whether the current chunk exists and is not empty (test support).
    pub fn current_chunk_is_non_empty_for_testing(&self) -> (non_empty: bool)
        ensures
            non_empty == (self@.current matches Some(c) && c.len() > 0),
    {
        match &self.current_chunk {
            Some(chunk) => !chunk.as_str().is_empty(),
            None => false,
        }
    }

    /// The number of queued chunks (test support).
    pub fn queued_chunk_count_for_testing(&self) -> (count: usize)
        ensures
            count == self@.queued.len(),
    {
        self.queued_chunks.len()
    }

    /// The front of the queue (test support).
    pub fn queued_front_for_testing(&self) -> (front: Option<&str>)
        ensures
            match front {
                Some(f) => self@.queued.len() > 0 && self@.queued[0] == f@,
                None => self@.queued.len() == 0,
            },
    {
        if self.queued_chunks.len() > 0 {
            Some(self.queued_chunks[0].as_str())
        } else {
            None
        }
    }
}

/// Making a chunk current loses no non-empty chunk and keeps their order:
/// script input (if any) comes first, then every chunk the buffer held.
/// Only an empty current chunk preempted by script input is discarded.
pub proof fn law_ensure_current_chunk_keeps_input(v: ParserInputView, script_input: Option<Seq<char>>)
    ensures
        remaining_chunks(ensured(v, script_input)) == match script_input {
            Some(s) => match v.current {
                Some(c) => if c.len() == 0 {
                    seq![s] + v.queued
                } else {
                    seq![s] + remaining_chunks(v)
                },
                None => seq![s] + remaining_chunks(v),
            },
            None => remaining_chunks(v),
        },
{
    match script_input {
        Some(s) => {
            match v.current {
                Some(c) => {
                    if c.len() > 0 {
                        assert(seq![s] + (seq![c] + v.queued) =~= seq![s] + remaining_chunks(v));
                    }
                },
                None => {},
            }
        },
        None => {
            if v.current is None && v.queued.len() > 0 {
                assert(seq![v.queued[0]] + v.queued.drop_first() =~= v.queued);
            }
        },
    }
}

/// Signals a parser discovered while consuming input: scripts to prefetch,
/// `modulepreload` links, `<meta>` CSP candidates and blocking stylesheets.
#[derive(Debug)]
pub struct LiveDocumentParserDiscoverySignals<S, B> {
    pub async_prefetch_scripts: Vec<S>,
    pub modulepreload_link_candidates: Vec<NativeNodeId>,
    pub parser_meta_csp_candidates: Vec<NativeNodeId>,
    pub blocking_stylesheet_inputs: Vec<B>,
}

/// Discovery signals, by their four lists.
pub open spec fn signals_view<S, B>(s: LiveDocumentParserDiscoverySignals<S, B>) -> (
    Seq<S>,
    Seq<NativeNodeId>,
    Seq<NativeNodeId>,
    Seq<B>,
) {
    (
        s.async_prefetch_scripts@,
        s.modulepreload_link_candidates@,
        s.parser_meta_csp_candidates@,
        s.blocking_stylesheet_inputs@,
    )
}

/// The signals of `a` followed, list by list, by the signals of `b`.
pub open spec fn signals_concat<S, B>(
    a: (Seq<S>, Seq<NativeNodeId>, Seq<NativeNodeId>, Seq<B>),
    b: (Seq<S>, Seq<NativeNodeId>, Seq<NativeNodeId>, Seq<B>),
) -> (Seq<S>, Seq<NativeNodeId>, Seq<NativeNodeId>, Seq<B>) {
    (a.0 + b.0, a.1 + b.1, a.2 + b.2, a.3 + b.3)
}

/// No signal at all.
pub open spec fn no_signals<S, B>() -> (Seq<S>, Seq<NativeNodeId>, Seq<NativeNodeId>, Seq<B>) {
    (Seq::empty(), Seq::empty(), Seq::empty(), Seq::empty())
}

impl<S, B> LiveDocumentParserDiscoverySignals<S, B> {
    /// No signal at all.
    pub fn new() -> (signals: Self)
        ensures
            signals_view(signals) == no_signals::<S, B>(),
    {
        LiveDocumentParserDiscoverySignals {
            async_prefetch_scripts: Vec::new(),
            modulepreload_link_candidates: Vec::new(),
            parser_meta_csp_candidates: Vec::new(),
            blocking_stylesheet_inputs: Vec::new(),
        }
    }

    /// Appends `other`'s signals after these, list by list.
    pub fn extend(&mut self, other: Self)
        ensures
            signals_view(*final(self)) == signals_concat(signals_view(*old(self)), signals_view(other)),
    {
        let mut other = other;
        self.async_prefetch_scripts.append(&mut other.async_prefetch_scripts);
        self.modulepreload_link_candidates.append(&mut other.modulepreload_link_candidates);
        self.parser_meta_csp_candidates.append(&mut other.parser_meta_csp_candidates);
        self.blocking_stylesheet_inputs.append(&mut other.blocking_stylesheet_inputs);
    }
}

/// Accumulating signals is associative and has no signals as identity, so
/// the order in which steps are merged does not matter, only the order of
/// the steps.
pub proof fn law_signal_accumulation_is_associative<S, B>(
    a: (Seq<S>, Seq<NativeNodeId>, Seq<NativeNodeId>, Seq<B>),
    b: (Seq<S>, Seq<NativeNodeId>, Seq<NativeNodeId>, Seq<B>),
    c: (Seq<S>, Seq<NativeNodeId>, Seq<NativeNodeId>, Seq<B>),
)
    ensures
        signals_concat(signals_concat(a, b), c) == signals_concat(a, signals_concat(b, c)),
        signals_concat(no_signals(), a) == a,
        signals_concat(a, no_signals()) == a,
{
    assert(signals_concat(signals_concat(a, b), c).0 =~= signals_concat(a, signals_concat(b, c)).0);
    assert(signals_concat(signals_concat(a, b), c).1 =~= signals_concat(a, signals_concat(b, c)).1);
    assert(signals_concat(signals_concat(a, b), c).2 =~= signals_concat(a, signals_concat(b, c)).2);
    assert(signals_concat(signals_concat(a, b), c).3 =~= signals_concat(a, signals_concat(b, c)).3);
    assert(signals_concat(no_signals(), a).0 =~= a.0);
    assert(signals_concat(no_signals(), a).1 =~= a.1);
    assert(signals_concat(no_signals(), a).2 =~= a.2);
    assert(signals_concat(no_signals(), a).3 =~= a.3);
    assert(signals_concat(a, no_signals()).0 =~= a.0);
    assert(signals_concat(a, no_signals()).1 =~= a.1);
    assert(signals_concat(a, no_signals()).2 =~= a.2);
    assert(signals_concat(a, no_signals()).3 =~= a.3);
}

/// How long a parser lives.
#[derive(Clone, Copy, Debug, PartialEq, Eq, Structural)]
pub enum DocumentParserLifetime {
    /// The parser consumes a finite navigation or `srcdoc` input.
    Finite,
    /// `document.open()` created a parser that stays open across writes.
    Open,
    /// `document.close()` requested EOF; finish once the active blocker is
    /// released.
    Closing,
}

/// Why the parser stopped consuming input in the middle of a step.
pub enum ParserYield<C, P, S> {
    CustomElementConstruction(Box<C>),
    BlockingStylesheet(P),
    Script(Box<S>),
}

/// How one pump of the parser ended.
pub enum ParserPumpStep<C, P, S> {
    InputDrained,
    Yield(ParserYield<C, P, S>),
}

/// What one pump of the parser produced.
pub struct ParserPumpOutcome<C, P, S, PS, B> {
    pub result: ParserPumpStep<C, P, S>,
    pub discovered_async_prefetch_scripts: Vec<PS>,
    pub discovered_modulepreload_link_candidates: Vec<NativeNodeId>,
    pub discovered_blocking_stylesheet_inputs: Vec<B>,
}

/// What the owner of a live parser must do after one step.
pub enum LiveDocumentParserStepOutcome<C, P, S> {
    /// The input was consumed without a synchronous lifecycle handoff.
    Continue,
    /// Author-defined custom element construction must run before insertion
    /// continues in the same parser.
    CustomElementConstructionHandoff(Box<C>),
    /// A parser-created blocking stylesheet pauses token consumption.
    BlockingStylesheetPause(P),
    /// The tree builder reached a parser-connected script.
    ScriptHandoff(Box<S>),
}

/// The outcome of one step together with the signals it discovered.
pub struct LiveDocumentParserStepAdvance<C, P, S, PS, B> {
    pub outcome: LiveDocumentParserStepOutcome<C, P, S>,
    pub discovery_signals: LiveDocumentParserDiscoverySignals<PS, B>,
}

/// The step outcome that a pump result calls for.
pub open spec fn step_outcome_of<C, P, S>(result: ParserPumpStep<C, P, S>) -> LiveDocumentParserStepOutcome<C, P, S> {
    match result {
        ParserPumpStep::InputDrained => LiveDocumentParserStepOutcome::Continue,
        ParserPumpStep::Yield(ParserYield::CustomElementConstruction(h)) =>
            LiveDocumentParserStepOutcome::CustomElementConstructionHandoff(h),
        ParserPumpStep::Yield(ParserYield::BlockingStylesheet(p)) =>
            LiveDocumentParserStepOutcome::BlockingStylesheetPause(p),
        ParserPumpStep::Yield(ParserYield::Script(h)) => LiveDocumentParserStepOutcome::ScriptHandoff(h),
    }
}

impl<C, P, S, PS, B> LiveDocumentParserStepAdvance<C, P, S, PS, B> {
    /// The outcome and the signals, apart.
    pub fn split(self) -> (parts: (LiveDocumentParserStepOutcome<C, P, S>, LiveDocumentParserDiscoverySignals<PS, B>))
        ensures
            parts.0 == self.outcome,
            parts.1 == self.discovery_signals,
    {
        (self.outcome, self.discovery_signals)
    }
}

/// Turns one pump of the parser, and the `<meta>` CSP candidates the stream
/// discovered during it, into a step outcome and its discovery signals.
pub fn advance_live_document_parser_step<C, P, S, PS, B>(
    pump: ParserPumpOutcome<C, P, S, PS, B>,
    discovered_parser_meta_csp_candidates: Vec<NativeNodeId>,
) -> (advance: LiveDocumentParserStepAdvance<C, P, S, PS, B>)
    ensures
        advance.outcome == step_outcome_of(pump.result),
        signals_view(advance.discovery_signals) == (
            pump.discovered_async_prefetch_scripts@,
            pump.discovered_modulepreload_link_candidates@,
            discovered_parser_meta_csp_candidates@,
            pump.discovered_blocking_stylesheet_inputs@,
        ),
{
    let ParserPumpOutcome {
        result,
        discovered_async_prefetch_scripts,
        discovered_modulepreload_link_candidates,
        discovered_blocking_stylesheet_inputs,
    } = pump;
    let discovery_signals = LiveDocumentParserDiscoverySignals {
        async_prefetch_scripts: discovered_async_prefetch_scripts,
        modulepreload_link_candidates: discovered_modulepreload_link_candidates,
        parser_meta_csp_candidates: discovered_parser_meta_csp_candidates,
        blocking_stylesheet_inputs: discovered_blocking_stylesheet_inputs,
    };
    let outcome = match result {
        ParserPumpStep::InputDrained => LiveDocumentParserStepOutcome::Continue,
        ParserPumpStep::Yield(ParserYield::CustomElementConstruction(handoff)) => {
            LiveDocumentParserStepOutcome::CustomElementConstructionHandoff(handoff)
        },
        ParserPumpStep::Yield(ParserYield::BlockingStylesheet(pause)) => {
            LiveDocumentParserStepOutcome::BlockingStylesheetPause(pause)
        },
        ParserPumpStep::Yield(ParserYield::Script(handoff)) => {
            LiveDocumentParserStepOutcome::ScriptHandoff(handoff)
        },
    };
    LiveDocumentParserStepAdvance { outcome, discovery_signals }
}

/// What the parser stream reported when it finished.
pub struct ParserFinishDiscoverySignals<B> {
    pub parser_created_null_registry_elements: Vec<NativeNodeId>,
    pub discovered_modulepreload_link_candidates: Vec<NativeNodeId>,
    pub discovered_parser_meta_csp_candidates: Vec<NativeNodeId>,
    pub discovered_blocking_stylesheet_inputs: Vec<B>,
}

/// What a finished parser hands to its owner.
pub struct DocumentParserFinishSignals<PS, B> {
    pub parser_created_null_registry_elements: Vec<NativeNodeId>,
    pub discovery_signals: LiveDocumentParserDiscoverySignals<PS, B>,
}

/// Turns what the parser stream reported at EOF into finish signals; a
/// finishing parser discovers no script to prefetch.
pub fn finish_live_document_parser<PS, B>(stream_finish: ParserFinishDiscoverySignals<B>) -> (finish:
    DocumentParserFinishSignals<PS, B>)
    ensures
        finish.parser_created_null_registry_elements == stream_finish.parser_created_null_registry_elements,
        signals_view(finish.discovery_signals) == (
            Seq::<PS>::empty(),
            stream_finish.discovered_modulepreload_link_candidates@,
            stream_finish.discovered_parser_meta_csp_candidates@,
            stream_finish.discovered_blocking_stylesheet_inputs@,
        ),
{
    let ParserFinishDiscoverySignals {
        parser_created_null_registry_elements,
        discovered_modulepreload_link_candidates,
        discovered_parser_meta_csp_candidates,
        discovered_blocking_stylesheet_inputs,
    } = stream_finish;
    DocumentParserFinishSignals {
        parser_created_null_registry_elements,
        discovery_signals: LiveDocumentParserDiscoverySignals {
            async_prefetch_scripts: Vec::new(),
            modulepreload_link_candidates: discovered_modulepreload_link_candidates,
            parser_meta_csp_candidates: discovered_parser_meta_csp_candidates,
            blocking_stylesheet_inputs: discovered_blocking_stylesheet_inputs,
        },
    }
}

/// The buffered input the stream handed back, followed by `tail`, or nothing
/// when both are empty.
pub open spec fn buffered_with_tail(buffered: Seq<char>, tail: Option<Seq<char>>) -> Option<Seq<char>> {
    let input = match tail {
        Some(t) => buffered + t,
        None => buffered,
    };
    if input.len() > 0 {
        Some(input)
    } else {
        None
    }
}

/// Joins the input the stream had buffered with an optional tail.
pub fn take_buffered_input_with_tail(buffered: String, tail: Option<String>) -> (input: Option<String>)
    ensures
        opt_chunk(input) == buffered_with_tail(buffered@, opt_chunk(tail)),
{
    let mut input = buffered;
    if let Some(tail) = tail {
        input.append(tail.as_str());
    }
    if !input.as_str().is_empty() {
        Some(input)
    } else {
        None
    }
}

/// The abstract state of a parser session.
pub struct DocumentParserSessionView<PS, B> {
    pub input: ParserInputView,
    pub signals: (Seq<PS>, Seq<NativeNodeId>, Seq<NativeNodeId>, Seq<B>),
    pub lifetime: DocumentParserLifetime,
    pub waiting_for_blocking_stylesheet: bool,
    pub waiting_for_parser_script: bool,
}

/// The runtime owner of one live document parser's input, lifetime,
/// suspension state and accumulated discovery signals.
pub struct DocumentParserSession<PS, B> {
    input: ParserInputBuffer,
    discovery_signals: LiveDocumentParserDiscoverySignals<PS, B>,
    lifetime: DocumentParserLifetime,
    waiting_for_blocking_stylesheet: bool,
    waiting_for_parser_script: bool,
}

impl<PS, B> View for DocumentParserSession<PS, B> {
    type V = DocumentParserSessionView<PS, B>;

    closed spec fn view(&self) -> DocumentParserSessionView<PS, B> {
        DocumentParserSessionView {
            input: self.input@,
            signals: signals_view(self.discovery_signals),
            lifetime: self.lifetime,
            waiting_for_blocking_stylesheet: self.waiting_for_blocking_stylesheet,
            waiting_for_parser_script: self.waiting_for_parser_script,
        }
    }
}

/// Whether a parser with this lifetime finishes once its input is drained.
pub open spec fn finishes_when_drained_spec(lifetime: DocumentParserLifetime) -> bool {
    lifetime == DocumentParserLifetime::Finite || lifetime == DocumentParserLifetime::Closing
}

impl<PS, B> DocumentParserSession<PS, B> {
    /// A session with empty input, no signals and no wait.
    pub fn new(lifetime: DocumentParserLifetime) -> (session: Self)
        ensures
            session@.input.queued.len() == 0,
            session@.input.current is None,
            session@.signals == no_signals::<PS, B>(),
            session@.lifetime == lifetime,
            !session@.waiting_for_blocking_stylesheet,
            !session@.waiting_for_parser_script,
    {
        DocumentParserSession {
            input: ParserInputBuffer::new(),
            discovery_signals: LiveDocumentParserDiscoverySignals::new(),
            lifetime,
            waiting_for_blocking_stylesheet: false,
            waiting_for_parser_script: false,
        }
    }

    /// The session of a main-document navigation parser.
    pub fn start_main_document() -> (session: Self)
        ensures
            session@.lifetime == DocumentParserLifetime::Finite,
            session@.input.queued.len() == 0,
            session@.input.current is None,
            session@.signals == no_signals::<PS, B>(),
            !session@.waiting_for_blocking_stylesheet,
            !session@.waiting_for_parser_script,
    {
        Self::new(DocumentParserLifetime::Finite)
    }

    /// The session of a parser for a finite live document (such as `srcdoc`).
    pub fn start_finite_live_document() -> (session: Self)
        ensures
            session@.lifetime == DocumentParserLifetime::Finite,
            session@.input.queued.len() == 0,
            session@.input.current is None,
            session@.signals == no_signals::<PS, B>(),
            !session@.waiting_for_blocking_stylesheet,
            !session@.waiting_for_parser_script,
    {
        Self::new(DocumentParserLifetime::Finite)
    }

    /// The session of a parser that `document.open()` created.
    pub fn start_open_live_document() -> (session: Self)
        ensures
            session@.lifetime == DocumentParserLifetime::Open,
            session@.input.queued.len() == 0,
            session@.input.current is None,
            session@.signals == no_signals::<PS, B>(),
            !session@.waiting_for_blocking_stylesheet,
            !session@.waiting_for_parser_script,
    {
        Self::new(DocumentParserLifetime::Open)
    }

    /// The lifetime of this parser.
    pub fn lifetime(&self) -> (lifetime: DocumentParserLifetime)
        ensures
            lifetime == self@.lifetime,
    {
        self.lifetime
    }

    /// Requests EOF; returns whether this request was the first.
    pub fn request_close(&mut self) -> (first: bool)
        ensures
            first == (old(self)@.lifetime != DocumentParserLifetime::Closing),
            final(self)@ == (DocumentParserSessionView {
                lifetime: DocumentParserLifetime::Closing,
                ..old(self)@
            }),
    {
        if self.lifetime == DocumentParserLifetime::Closing {
            return false;
        }
        self.lifetime = DocumentParserLifetime::Closing;
        true
    }

    /// Whether the parser finishes once its input is drained.
    pub fn finishes_when_drained(&self) -> (finishes: bool)
        ensures
            finishes == finishes_when_drained_spec(self@.lifetime),
    {
        match self.lifetime {
            DocumentParserLifetime::Finite | DocumentParserLifetime::Closing => true,
            DocumentParserLifetime::Open => false,
        }
    }

    /// Suspends the parser until a blocking stylesheet loads.
    pub fn wait_for_blocking_stylesheet(&mut self)
        ensures
            final(self)@ == (DocumentParserSessionView {
                waiting_for_blocking_stylesheet: true,
                ..old(self)@
            }),
    {
        self.waiting_for_blocking_stylesheet = true;
    }

    /// Clears the blocking-stylesheet wait; returns whether it was set.
    pub fn take_blocking_stylesheet_wait(&mut self) -> (was_waiting: bool)
        ensures
            was_waiting == old(self)@.waiting_for_blocking_stylesheet,
            final(self)@ == (DocumentParserSessionView {
                waiting_for_blocking_stylesheet: false,
                ..old(self)@
            }),
    {
        let was_waiting = self.waiting_for_blocking_stylesheet;
        self.waiting_for_blocking_stylesheet = false;
        was_waiting
    }

    /// Whether the parser waits for a blocking stylesheet.
    pub fn is_waiting_for_blocking_stylesheet(&self) -> (waiting: bool)
        ensures
            waiting == self@.waiting_for_blocking_stylesheet,
    {
        self.waiting_for_blocking_stylesheet
    }

    /// Suspends the parser until a parser-blocking script has run.
    pub fn wait_for_parser_script(&mut self)
        ensures
            final(self)@ == (DocumentParserSessionView {
                waiting_for_parser_script: true,
                ..old(self)@
            }),
    {
        self.waiting_for_parser_script = true;
    }

    /// Clears the parser-script wait; returns whether it was set.
    pub fn take_parser_script_wait(&mut self) -> (was_waiting: bool)
        ensures
            was_waiting == old(self)@.waiting_for_parser_script,
            final(self)@ == (DocumentParserSessionView {
                waiting_for_parser_script: false,
                ..old(self)@
            }),
    {
        let was_waiting = self.waiting_for_parser_script;
        self.waiting_for_parser_script = false;
        was_waiting
    }

    /// Whether the parser waits for a parser-blocking script.
    pub fn is_waiting_for_parser_script(&self) -> (waiting: bool)
        ensures
            waiting == self@.waiting_for_parser_script,
    {
        self.waiting_for_parser_script
    }

    /// Queues a chunk that arrived from the network.
    pub fn queue_arrived_chunk(&mut self, html: String)
        ensures
            final(self)@.input.current == old(self)@.input.current,
            final(self)@.input.queued == if html@.len() > 0 {
                old(self)@.input.queued.push(html@)
            } else {
                old(self)@.input.queued
            },
            final(self)@.signals == old(self)@.signals,
            final(self)@.lifetime == old(self)@.lifetime,
            final(self)@.waiting_for_blocking_stylesheet == old(self)@.waiting_for_blocking_stylesheet,
            final(self)@.waiting_for_parser_script == old(self)@.waiting_for_parser_script,
    {
        self.input.queue_arrived_chunk(html);
    }

    /// Makes sure a chunk is current, given the script-inserted input the
    /// parser stream had waiting.
    pub fn ensure_current_chunk(&mut self, script_input_html: Option<String>)
        ensures
            final(self)@ == (DocumentParserSessionView {
                input: ensured(old(self)@.input, opt_chunk(script_input_html)),
                ..old(self)@
            }),
    {
        self.input.ensure_current_chunk(script_input_html);
    }

    /// Whether the session's input holds no chunk at all.
    pub fn input_is_empty(&self) -> (empty: bool)
        ensures
            empty == (self@.input.current is None && self@.input.queued.len() == 0),
    {
        self.input.is_empty()
    }

    /// Whether the session's input holds no chunk at all (test support).
    pub fn is_empty(&self) -> (empty: bool)
        ensures
            empty == (self@.input.current is None && self@.input.queued.len() == 0),
    {
        self.input_is_empty()
    }

    /// The byte length of the current chunk.
    pub fn current_chunk_len(&self) -> (len: usize)
        ensures
            len == match self@.input.current {
                Some(c) => utf8_len(c) as usize,
                None => 0,
            },
    {
        self.input.current_chunk_len()
    }

    /// Whether no chunk is current.
    pub fn current_chunk_is_none(&self) -> (none: bool)
        ensures
            none == (self@.input.current is None),
    {
        self.input.current_chunk_is_none()
    }

    /// Whether the current chunk exists and is empty.
    pub fn current_chunk_is_empty(&self) -> (empty: bool)
        ensures
            empty == (self@.input.current matches Some(c) && c.len() == 0),
    {
        self.input.current_chunk_is_empty()
    }

    /// Takes the current chunk, or an empty chunk when there is none.
    pub fn take_current_chunk(&mut self) -> (chunk: String)
        ensures
            chunk@ == match old(self)@.input.current {
                Some(c) => c,
                None => Seq::<char>::empty(),
            },
            final(self)@ == (DocumentParserSessionView {
                input: ParserInputView { current: None, ..old(self)@.input },
                ..old(self)@
            }),
    {
        self.input.take_current_chunk()
    }

    /// Replaces the current chunk.
    pub fn set_current_chunk(&mut self, chunk: Option<String>)
        ensures
            final(self)@ == (DocumentParserSessionView {
                input: ParserInputView { current: opt_chunk(chunk), ..old(self)@.input },
                ..old(self)@
            }),
    {
        self.input.set_current_chunk(chunk);
    }

    /// The input of the next queued or resumed step: the chunk made current
    /// (script input first), taken out of the buffer.
    pub fn take_queued_or_resume_step_input(&mut self, script_input_html: Option<String>) -> (step:
        String)
        ensures
            step@ == match ensured(old(self)@.input, opt_chunk(script_input_html)).current {
                Some(c) => c,
                None => Seq::<char>::empty(),
            },
            final(self)@ == (DocumentParserSessionView {
                input: ParserInputView {
                    current: None,
                    ..ensured(old(self)@.input, opt_chunk(script_input_html))
                },
                ..old(self)@
            }),
    {
        self.ensure_current_chunk(script_input_html);
        self.input.take_current_chunk()
    }

    /// Accumulates the signals of one step and returns its outcome.
    pub fn record_step_advance<C, P, S>(&mut self, advance: LiveDocumentParserStepAdvance<C, P, S, PS, B>) -> (outcome:
        LiveDocumentParserStepOutcome<C, P, S>)
        ensures
            outcome == advance.outcome,
            final(self)@ == (DocumentParserSessionView {
                signals: signals_concat(old(self)@.signals, signals_view(advance.discovery_signals)),
                ..old(self)@
            }),
    {
        let (outcome, discovery_signals) = advance.split();
        self.discovery_signals.extend(discovery_signals);
        outcome
    }

    /// Takes the accumulated discovery signals.
    pub fn take_discovery_signals(&mut self) -> (signals: LiveDocumentParserDiscoverySignals<PS, B>)
        ensures
            signals_view(signals) == old(self)@.signals,
            final(self)@ == (DocumentParserSessionView { signals: no_signals::<PS, B>(), ..old(self)@ }),
    {
        let mut taken = LiveDocumentParserDiscoverySignals::new();
        std::mem::swap(&mut taken, &mut self.discovery_signals);
        taken
    }

    /// Finishes the session: the signals it accumulated come first, then
    /// those the stream reported at EOF.
    pub fn finish(self, stream_finish: DocumentParserFinishSignals<PS, B>) -> (finish:
        DocumentParserFinishSignals<PS, B>)
        ensures
            finish.parser_created_null_registry_elements == stream_finish.parser_created_null_registry_elements,
            signals_view(finish.discovery_signals) == signals_concat(
                self@.signals,
                signals_view(stream_finish.discovery_signals),
            ),
    {
        let mut discovery_signals = self.discovery_signals;
        let DocumentParserFinishSignals { parser_created_null_registry_elements, discovery_signals: finish_signals } =
            stream_finish;
        discovery_signals.extend(finish_signals);
        DocumentParserFinishSignals { parser_created_null_registry_elements, discovery_signals }
    }

    /// The number of queued chunks (test support).
    pub fn queued_chunk_count_for_testing(&self) -> (count: usize)
        ensures
            count == self@.input.queued.len(),
    {
        self.input.queued_chunk_count_for_testing()
    }

    /// Whether the current chunk exists and is not empty (test support).
    pub fn current_chunk_is_non_empty_for_testing(&self) -> (non_empty: bool)
        ensures
            non_empty == (self@.input.current matches Some(c) && c.len() > 0),
    {
        self.input.current_chunk_is_non_empty_for_testing()
    }
}

/// Closing is idempotent and permanent: after a close request the parser is
/// closing, a second request reports that it was not the first, and a
/// closing parser finishes once drained.
pub proof fn law_close_is_idempotent(lifetime: DocumentParserLifetime)
    ensures
        finishes_when_drained_spec(DocumentParserLifetime::Closing),
        DocumentParserLifetime::Closing != lifetime ==> lifetime == DocumentParserLifetime::Finite
            || lifetime == DocumentParserLifetime::Open,
        !finishes_when_drained_spec(lifetime) <==> lifetime == DocumentParserLifetime::Open,
{
}

} // verus!
