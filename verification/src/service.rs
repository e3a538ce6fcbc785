//! Analysing a document: fetch its text, extract a graph from it, store the
//! graph, and hand the graph back.
//!
//! An [`Analysis`] strings the other machines together. It asks for the
//! document, runs an [`Extraction`] on its text and a [`GraphStore`] on the
//! graph that comes out, and is finished with that graph once the store has
//! committed it, or with the first error on the way.

use crate::extraction::{
    fallback, CompletionRequestView, Extraction, ExtractionError, ExtractionErrorView,
    ExtractionEvent, ExtractionEventView, ExtractionView,
};
use crate::graph::{GraphData, GraphDataView};
use crate::protocol::{unexpected_reply, unexpected_reply_text};
use crate::store::{
    GraphStore, GraphStoreView, PhaseView, StoreAction, StoreActionView, StoreError,
    StoreErrorView, StoreEvent, StoreEventView,
};
use uuid::Uuid;
use vstd::prelude::*;

verus! {

/// Where completions are asked for, unless configured otherwise.
pub open spec fn default_api_url() -> Seq<char> {
    "https://api.openai.com/v1/chat/completions"@
}

/// The model that is asked, unless configured otherwise.
pub open spec fn default_model() -> Seq<char> {
    "gpt-3.5-turbo"@
}

/// How documents are analysed: which model is asked, where, and under which
/// key. Without a key no model is asked at all.
#[derive(Debug, Clone)]
pub struct LLMService {
    api_key: Option<String>,
    api_url: String,
    model: String,
}

/// A service, as a mathematical value.
pub struct LLMServiceView {
    pub api_key: Option<Seq<char>>,
    pub api_url: Seq<char>,
    pub model: Seq<char>,
}

impl View for LLMService {
    type V = LLMServiceView;

    closed spec fn view(&self) -> LLMServiceView {
        LLMServiceView {
            api_key: match self.api_key {
                Some(key) => Some(key@),
                None => None,
            },
            api_url: self.api_url@,
            model: self.model@,
        }
    }
}

impl LLMServiceView {
    /// What is configured, with the defaults in the place of what is not.
    pub open spec fn new(
        api_key: Option<Seq<char>>,
        api_url: Option<Seq<char>>,
        model: Option<Seq<char>>,
    ) -> LLMServiceView {
        LLMServiceView {
            api_key,
            api_url: match api_url {
                Some(url) => url,
                None => default_api_url(),
            },
            model: match model {
                Some(model) => model,
                None => default_model(),
            },
        }
    }

    /// The extraction that this service starts for the text of a document.
    pub open spec fn extraction(self, document: Seq<char>) -> ExtractionView {
        match self.api_key {
            Some(key) => ExtractionView::Send(
                CompletionRequestView::new(self.api_url, key, self.model, document),
            ),
            None => ExtractionView::Done(fallback()),
        }
    }
}

/// The text of an optional string.
pub open spec fn text_of(value: Option<String>) -> Option<Seq<char>> {
    match value {
        Some(text) => Some(text@),
        None => None,
    }
}

/// The texts that a stored document offers for analysis.
#[derive(Debug, PartialEq, Eq)]
pub struct DocumentText {
    /// The text that character recognition found in the document.
    pub ocr_text: Option<String>,
    /// The content that was stored with the document.
    pub content: Option<String>,
}

/// The texts of a document, as mathematical values.
pub struct DocumentTextView {
    pub ocr_text: Option<Seq<char>>,
    pub content: Option<Seq<char>>,
}

impl View for DocumentText {
    type V = DocumentTextView;

    open spec fn view(&self) -> DocumentTextView {
        DocumentTextView { ocr_text: text_of(self.ocr_text), content: text_of(self.content) }
    }
}

impl DocumentTextView {
    /// The text that is analysed: the recognised text where there is one,
    /// else the stored content.
    pub open spec fn analyzable(self) -> Option<Seq<char>> {
        match self.ocr_text {
            Some(text) => Some(text),
            None => self.content,
        }
    }
}

impl DocumentText {
    /// The text that is analysed, if the document has any.
    pub fn into_analyzable(self) -> (text: Option<String>)
        ensures
            text_of(text) == self@.analyzable(),
    {
        match self.ocr_text {
            Some(text) => Some(text),
            None => self.content,
        }
    }
}

/// Why an analysis failed.
#[derive(Debug, PartialEq, Eq)]
pub enum AnalysisError {
    /// No document has the identifier.
    NotFound,
    /// The document has no text to analyse.
    NoContent,
    /// No graph could be extracted.
    Extraction(ExtractionError),
    /// The document could not be read, or the graph could not be stored.
    Storage(StoreError),
}

/// An analysis error, as a mathematical value.
pub enum AnalysisErrorView {
    NotFound,
    NoContent,
    Extraction(ExtractionErrorView),
    Storage(StoreErrorView),
}

impl View for AnalysisError {
    type V = AnalysisErrorView;

    open spec fn view(&self) -> AnalysisErrorView {
        match self {
            AnalysisError::NotFound => AnalysisErrorView::NotFound,
            AnalysisError::NoContent => AnalysisErrorView::NoContent,
            AnalysisError::Extraction(error) => AnalysisErrorView::Extraction(error@),
            AnalysisError::Storage(error) => AnalysisErrorView::Storage(error@),
        }
    }
}

impl AnalysisErrorView {
    /// The sentence that reports this error.
    pub open spec fn message(self) -> Seq<char> {
        match self {
            AnalysisErrorView::NotFound => "Document not found"@,
            AnalysisErrorView::NoContent => "No content to analyze"@,
            AnalysisErrorView::Extraction(error) => error.message(),
            AnalysisErrorView::Storage(error) => error.message(),
        }
    }
}

impl AnalysisError {
    /// The sentence that reports this error.
    pub fn message(&self) -> (text: String)
        ensures
            text@ == self@.message(),
    {
        match self {
            AnalysisError::NotFound => String::from_str("Document not found"),
            AnalysisError::NoContent => String::from_str("No content to analyze"),
            AnalysisError::Extraction(error) => error.message(),
            AnalysisError::Storage(error) => error.message(),
        }
    }
}

/// How an analysis ended, as a mathematical value.
pub open spec fn outcome_view(outcome: Result<GraphData, AnalysisError>) -> Result<
    GraphDataView,
    AnalysisErrorView,
> {
    match outcome {
        Ok(graph) => Ok(graph@),
        Err(error) => Err(error@),
    }
}

/// What came of the action that an analysis asked for.
#[derive(Debug, PartialEq)]
pub enum AnalysisEvent {
    /// The document was looked up: these are its texts, or there is no such
    /// document.
    Document(Option<DocumentText>),
    /// What came of the action of the extraction.
    Extraction(ExtractionEvent),
    /// What came of the action of the store.
    Store(StoreEvent),
    /// The action failed, for this cause.
    Failed(String),
}

/// An analysis event, as a mathematical value.
pub enum AnalysisEventView {
    Document(Option<DocumentTextView>),
    Extraction(ExtractionEventView),
    Store(StoreEventView),
    Failed(Seq<char>),
}

impl View for AnalysisEvent {
    type V = AnalysisEventView;

    open spec fn view(&self) -> AnalysisEventView {
        match self {
            AnalysisEvent::Document(None) => AnalysisEventView::Document(None),
            AnalysisEvent::Document(Some(document)) => AnalysisEventView::Document(
                Some(document@),
            ),
            AnalysisEvent::Extraction(event) => AnalysisEventView::Extraction(event@),
            AnalysisEvent::Store(event) => AnalysisEventView::Store(event@),
            AnalysisEvent::Failed(cause) => AnalysisEventView::Failed(cause@),
        }
    }
}

impl AnalysisEventView {
    /// Why the pending action failed, where this event is not the success
    /// that was awaited.
    pub open spec fn cause(self) -> Seq<char> {
        match self {
            AnalysisEventView::Failed(cause) => cause,
            _ => unexpected_reply(),
        }
    }

    /// This event as the extraction takes it: as it is where it is meant for
    /// the extraction, as a failure otherwise.
    pub open spec fn for_extraction(self) -> ExtractionEventView {
        match self {
            AnalysisEventView::Extraction(event) => event,
            _ => ExtractionEventView::Failed(self.cause()),
        }
    }

    /// This event as the store takes it: as it is where it is meant for the
    /// store, as a failure otherwise.
    pub open spec fn for_store(self) -> StoreEventView {
        match self {
            AnalysisEventView::Store(event) => event,
            _ => StoreEventView::Failed(self.cause()),
        }
    }
}

impl AnalysisEvent {
    fn cause(self) -> (cause: String)
        ensures
            cause@ == self@.cause(),
    {
        match self {
            AnalysisEvent::Failed(cause) => cause,
            _ => unexpected_reply_text(),
        }
    }

    fn for_extraction(self) -> (event: ExtractionEvent)
        ensures
            event@ == self@.for_extraction(),
    {
        match self {
            AnalysisEvent::Extraction(event) => event,
            other => ExtractionEvent::Failed(other.cause()),
        }
    }

    fn for_store(self) -> (event: StoreEvent)
        ensures
            event@ == self@.for_store(),
    {
        match self {
            AnalysisEvent::Store(event) => event,
            other => StoreEvent::Failed(other.cause()),
        }
    }
}

/// What the caller is to do next.
#[derive(Debug, PartialEq)]
pub enum AnalysisAction<'a> {
    /// Look the document up and report its texts.
    FetchDocument { document_id: Uuid },
    /// Do what the extraction asks for.
    Extract(&'a Extraction),
    /// Do what the store asks for.
    Store(StoreAction<'a>),
    /// Nothing: the analysis is over, with this result.
    Finish(&'a Result<GraphData, AnalysisError>),
}

/// An analysis action, as a mathematical value.
pub enum AnalysisActionView {
    FetchDocument { document_id: Uuid },
    Extract(ExtractionView),
    Store(StoreActionView),
    Finish(Result<GraphDataView, AnalysisErrorView>),
}

impl<'a> View for AnalysisAction<'a> {
    type V = AnalysisActionView;

    open spec fn view(&self) -> AnalysisActionView {
        match self {
            AnalysisAction::FetchDocument { document_id } => AnalysisActionView::FetchDocument {
                document_id: *document_id,
            },
            AnalysisAction::Extract(extraction) => AnalysisActionView::Extract(extraction@),
            AnalysisAction::Store(action) => AnalysisActionView::Store(action@),
            AnalysisAction::Finish(outcome) => AnalysisActionView::Finish(outcome_view(**outcome)),
        }
    }
}

/// Where an analysis stands.
enum Stage {
    Fetch,
    Extract(Extraction),
    Store(GraphStore),
    Finished(Result<GraphData, AnalysisError>),
}

/// Where an analysis stands, as a mathematical value.
pub enum StageView {
    /// The document is to be looked up.
    Fetch,
    /// A graph is being extracted from the document's text.
    Extract(ExtractionView),
    /// The graph is being stored.
    Store(GraphStoreView),
    /// The analysis is over.
    Finished(Result<GraphDataView, AnalysisErrorView>),
}

impl View for Stage {
    type V = StageView;

    closed spec fn view(&self) -> StageView {
        match self {
            Stage::Fetch => StageView::Fetch,
            Stage::Extract(extraction) => StageView::Extract(extraction@),
            Stage::Store(store) => StageView::Store(store@),
            Stage::Finished(outcome) => StageView::Finished(outcome_view(*outcome)),
        }
    }
}

/// An analysis, as a mathematical value.
pub struct AnalysisView {
    /// The service that runs the analysis.
    pub service: LLMServiceView,
    /// The document that is analysed.
    pub document_id: Uuid,
    /// Where the analysis stands.
    pub stage: StageView,
}

impl AnalysisView {
    /// An analysis that has not begun yet.
    pub open spec fn start(service: LLMServiceView, document_id: Uuid) -> AnalysisView {
        AnalysisView { service, document_id, stage: StageView::Fetch }
    }

    /// An extraction or a store that the analysis is busy with is not over.
    pub open spec fn wf(self) -> bool {
        match self.stage {
            StageView::Extract(extraction) => !extraction.is_finished(),
            StageView::Store(store) => store.wf() && !store.is_finished(),
            _ => true,
        }
    }

    /// The analysis is over, one way or the other.
    pub open spec fn is_finished(self) -> bool {
        self.stage is Finished
    }

    /// The same analysis at another stage.
    pub open spec fn at(self, stage: StageView) -> AnalysisView {
        AnalysisView { stage, ..self }
    }

    /// The analysis once its extraction stands at `extraction`: a graph that
    /// was extracted is taken to the store, an error ends the analysis, and
    /// anything else is the extraction's next action.
    pub open spec fn with_extraction(self, extraction: ExtractionView) -> AnalysisView {
        match extraction {
            ExtractionView::Done(graph) => self.at(
                StageView::Store(GraphStoreView::start(self.document_id, graph)),
            ),
            ExtractionView::Failed(error) => self.at(
                StageView::Finished(Err(AnalysisErrorView::Extraction(error))),
            ),
            _ => self.at(StageView::Extract(extraction)),
        }
    }

    /// The analysis once its store stands at `store`: a completed replace
    /// ends the analysis with the graph that was stored, an aborted one with
    /// its error, and anything else is the store's next action.
    pub open spec fn with_store(self, store: GraphStoreView) -> AnalysisView {
        match store.phase {
            PhaseView::Completed => self.at(StageView::Finished(Ok(store.graph))),
            PhaseView::Aborted(error) => self.at(
                StageView::Finished(Err(AnalysisErrorView::Storage(error))),
            ),
            _ => self.at(StageView::Store(store)),
        }
    }

    /// What the caller is to do in this state.
    pub open spec fn action(self) -> AnalysisActionView {
        match self.stage {
            StageView::Fetch => AnalysisActionView::FetchDocument { document_id: self.document_id },
            StageView::Extract(extraction) => AnalysisActionView::Extract(extraction),
            StageView::Store(store) => AnalysisActionView::Store(store.action()),
            StageView::Finished(outcome) => AnalysisActionView::Finish(outcome),
        }
    }

    /// The state that follows when the pending action went as `event` says.
    ///
    /// A finished analysis stays as it is. After the lookup, a missing
    /// document and a document without text each end the analysis with their
    /// own error, and any other failure with a storage error; otherwise the
    /// extraction starts on the document's text. During the extraction and
    /// the store, the event is passed on to them.
    pub open spec fn advance(self, event: AnalysisEventView) -> AnalysisView {
        match self.stage {
            StageView::Finished(_) => self,
            StageView::Fetch => match event {
                AnalysisEventView::Document(None) => self.at(
                    StageView::Finished(Err(AnalysisErrorView::NotFound)),
                ),
                AnalysisEventView::Document(Some(document)) => match document.analyzable() {
                    None => self.at(StageView::Finished(Err(AnalysisErrorView::NoContent))),
                    Some(text) => self.with_extraction(self.service.extraction(text)),
                },
                _ => self.at(
                    StageView::Finished(
                        Err(AnalysisErrorView::Storage(StoreErrorView::Storage(event.cause()))),
                    ),
                ),
            },
            StageView::Extract(extraction) => self.with_extraction(
                extraction.advance(event.for_extraction()),
            ),
            StageView::Store(store) => self.with_store(store.advance(event.for_store())),
        }
    }
}

/// Without a key the text of a document makes no difference: whatever it
/// is, the extraction is done at once, with the one stand-in graph.
pub proof fn lemma_fallback_ignores_text(
    service: LLMServiceView,
    document: Seq<char>,
    other: Seq<char>,
)
    requires
        service.api_key is None,
    ensures
        service.extraction(document) == ExtractionView::Done(fallback()),
        service.extraction(document) == service.extraction(other),
{
}

/// A graph is handed out only when it has just been committed. Where an
/// analysis that was not over is finished with a graph after an event, it
/// was busy storing that very graph, and the event completed the replace.
pub proof fn lemma_graph_is_returned_only_once_stored(
    analysis: AnalysisView,
    event: AnalysisEventView,
    graph: GraphDataView,
)
    requires
        analysis.wf(),
        !analysis.is_finished(),
        analysis.advance(event).stage == StageView::Finished(Ok(graph)),
    ensures
        analysis.stage is Store,
        analysis.stage->Store_0.graph == graph,
        analysis.stage->Store_0.phase is Commit,
        event.for_store() is Succeeded,
        analysis.stage->Store_0.advance(event.for_store()).phase is Completed,
{
}

/// The analysis of one document.
pub struct Analysis<'a> {
    service: &'a LLMService,
    document_id: Uuid,
    stage: Stage,
}

impl<'a> View for Analysis<'a> {
    type V = AnalysisView;

    closed spec fn view(&self) -> AnalysisView {
        AnalysisView { service: self.service@, document_id: self.document_id, stage: self.stage@ }
    }
}

impl LLMService {
    /// A service with what is configured: the key, if any, and the address
    /// and the model, each with its default where it is not given.
    pub fn new(api_key: Option<String>, api_url: Option<String>, model: Option<String>) -> (service:
        LLMService)
        ensures
            service@ == LLMServiceView::new(text_of(api_key), text_of(api_url), text_of(model)),
    {
        let api_url = match api_url {
            Some(url) => url,
            None => String::from_str("https://api.openai.com/v1/chat/completions"),
        };
        let model = match model {
            Some(model) => model,
            None => String::from_str("gpt-3.5-turbo"),
        };
        LLMService { api_key, api_url, model }
    }

    /// Whether a model is asked at all.
    pub fn has_api_key(&self) -> (configured: bool)
        ensures
            configured == self@.api_key is Some,
    {
        self.api_key.is_some()
    }

    /// Starts the extraction of a graph from the text of a document. With a
    /// key, the first action is to send the request for that text; without
    /// one the extraction is done at once, with the same stand-in graph
    /// whatever the text.
    pub fn extract(&self, document: &str) -> (extraction: Extraction)
        ensures
            extraction@ == self@.extraction(document@),
    {
        let api_key = match &self.api_key {
            Some(key) => Some(key.as_str()),
            None => None,
        };
        Extraction::start(api_key, self.api_url.as_str(), self.model.as_str(), document)
    }

    /// Starts the analysis of a document. Nothing has happened yet: the
    /// first action is to look the document up.
    pub fn analyze_document(&self, document_id: Uuid) -> (analysis: Analysis<'_>)
        ensures
            analysis@ == AnalysisView::start(self@, document_id),
    {
        Analysis { service: self, document_id, stage: Stage::Fetch }
    }
}

impl<'a> Analysis<'a> {
    #[verifier::type_invariant]
    spec fn well_formed(self) -> bool {
        self@.wf()
    }

    /// Whether the analysis is over.
    pub fn is_finished(&self) -> (finished: bool)
        ensures
            finished == self@.is_finished(),
    {
        match &self.stage {
            Stage::Finished(_) => true,
            _ => false,
        }
    }

    /// What the caller is to do now.
    pub fn action(&self) -> (action: AnalysisAction<'_>)
        ensures
            self@.wf(),
            action@ == self@.action(),
    {
        proof {
            use_type_invariant(self);
        }
        match &self.stage {
            Stage::Fetch => AnalysisAction::FetchDocument { document_id: self.document_id },
            Stage::Extract(extraction) => AnalysisAction::Extract(extraction),
            Stage::Store(store) => AnalysisAction::Store(store.action()),
            Stage::Finished(outcome) => AnalysisAction::Finish(outcome),
        }
    }

    /// Takes note of how the pending action went, and moves on.
    pub fn advance(self, event: AnalysisEvent) -> (next: Analysis<'a>)
        ensures
            self@.wf(),
            next@.wf(),
            next@ == self@.advance(event@),
    {
        proof {
            use_type_invariant(&self);
        }
        let Analysis { service, document_id, stage } = self;
        match stage {
            Stage::Finished(outcome) => Analysis {
                service,
                document_id,
                stage: Stage::Finished(outcome),
            },
            Stage::Fetch => match event {
                AnalysisEvent::Document(None) => Analysis {
                    service,
                    document_id,
                    stage: Stage::Finished(Err(AnalysisError::NotFound)),
                },
                AnalysisEvent::Document(Some(document)) => match document.into_analyzable() {
                    None => Analysis {
                        service,
                        document_id,
                        stage: Stage::Finished(Err(AnalysisError::NoContent)),
                    },
                    Some(text) => Self::with_extraction(
                        service,
                        document_id,
                        service.extract(text.as_str()),
                    ),
                },
                other => Analysis {
                    service,
                    document_id,
                    stage: Stage::Finished(
                        Err(AnalysisError::Storage(StoreError::Storage(other.cause()))),
                    ),
                },
            },
            Stage::Extract(extraction) => Self::with_extraction(
                service,
                document_id,
                extraction.advance(event.for_extraction()),
            ),
            Stage::Store(store) => Self::with_store(
                service,
                document_id,
                store.advance(event.for_store()),
            ),
        }
    }

    /// Ends an analysis that is over and hands out its result: the graph
    /// that was extracted and stored, or the error. An analysis that is not
    /// over is handed back as it is.
    pub fn finish(self) -> (outcome: Result<Result<GraphData, AnalysisError>, Analysis<'a>>)
        ensures
            match outcome {
                Ok(result) => self@.stage == StageView::Finished(outcome_view(result)),
                Err(analysis) => analysis@ == self@ && !self@.is_finished(),
            },
    {
        proof {
            use_type_invariant(&self);
        }
        let Analysis { service, document_id, stage } = self;
        match stage {
            Stage::Finished(result) => Ok(result),
            stage => Err(Analysis { service, document_id, stage }),
        }
    }

    fn with_extraction(service: &'a LLMService, document_id: Uuid, extraction: Extraction) -> (next:
        Analysis<'a>)
        ensures
            next@ == AnalysisView::start(service@, document_id).with_extraction(extraction@),
    {
        let stage = match extraction {
            Extraction::Done(graph) => Stage::Store(GraphStore::replace(document_id, graph)),
            Extraction::Failed(error) => Stage::Finished(Err(AnalysisError::Extraction(error))),
            extraction => Stage::Extract(extraction),
        };
        Analysis { service, document_id, stage }
    }

    fn with_store(service: &'a LLMService, document_id: Uuid, store: GraphStore) -> (next: Analysis<
        'a,
    >)
        requires
            store@.wf(),
        ensures
            next@ == AnalysisView::start(service@, document_id).with_store(store@),
    {
        let stage = match store.finish() {
            Ok((graph, Ok(()))) => Stage::Finished(Ok(graph)),
            Ok((_, Err(error))) => Stage::Finished(Err(AnalysisError::Storage(error))),
            Err(store) => Stage::Store(store),
        };
        Analysis { service, document_id, stage }
    }
}

} // verus!
