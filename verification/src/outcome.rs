//! What an analysis leaves behind in the tables.
//!
//! An [`AnalysisSession`] follows an [`AnalysisView`] and the tables through
//! any sequence of events. The proof at the end says that an analysis hands
//! out a graph only when that graph is what the tables now hold for the
//! document, and that it leaves the tables alone whenever it fails.

use crate::graph::GraphDataView;
use crate::service::{AnalysisEventView, AnalysisView, LLMServiceView, StageView};
use crate::tables::{replaced, Session, Tables};
use uuid::Uuid;
use vstd::prelude::*;

verus! {

/// An analysis under way, together with the tables it works on.
pub struct AnalysisSession {
    /// The analysis.
    pub analysis: AnalysisView,
    /// The tables as everyone else sees them.
    pub committed: Tables,
    /// The tables as the open transaction sees them.
    pub working: Tables,
    /// The identifiers given to the node rows inserted in this transaction.
    pub created: Seq<Uuid>,
}

impl AnalysisSession {
    /// An analysis that has not begun, on tables that hold `before`.
    pub open spec fn start(
        service: LLMServiceView,
        document_id: Uuid,
        before: Tables,
    ) -> AnalysisSession {
        AnalysisSession {
            analysis: AnalysisView::start(service, document_id),
            committed: before,
            working: before,
            created: Seq::empty(),
        }
    }

    /// The session after the pending action was tried and answered by
    /// `event`. Only an action of the store touches the tables, and as
    /// [`Session::step`] says.
    pub open spec fn step(self, event: AnalysisEventView) -> AnalysisSession {
        let analysis = self.analysis.advance(event);
        match self.analysis.stage {
            StageView::Store(store) => {
                let replace = Session {
                    store,
                    committed: self.committed,
                    working: self.working,
                    created: self.created,
                }.step(event.for_store());
                AnalysisSession {
                    analysis,
                    committed: replace.committed,
                    working: replace.working,
                    created: replace.created,
                }
            },
            _ => AnalysisSession { analysis, ..self },
        }
    }
}

/// The session after the events `events` were given, one for each action in
/// turn, to an analysis of `document_id` that started on `before`.
pub open spec fn run_analysis(
    service: LLMServiceView,
    document_id: Uuid,
    before: Tables,
    events: Seq<AnalysisEventView>,
) -> AnalysisSession
    decreases events.len(),
{
    if events.len() == 0 {
        AnalysisSession::start(service, document_id, before)
    } else {
        run_analysis(service, document_id, before, events.drop_last()).step(events.last())
    }
}

/// What holds of a session at every moment of an analysis of `document_id`
/// that started on `before`.
spec fn inv(s: AnalysisSession, document_id: Uuid, before: Tables) -> bool {
    &&& s.analysis.document_id == document_id
    &&& match s.analysis.stage {
        StageView::Fetch => s.committed == before && s.working == before && s.created
            == Seq::<Uuid>::empty(),
        StageView::Extract(_) => s.committed == before && s.working == before && s.created
            == Seq::<Uuid>::empty(),
        StageView::Store(store) => {
            &&& !store.is_finished()
            &&& (Session {
                store,
                committed: s.committed,
                working: s.working,
                created: s.created,
            }).follows(document_id, store.graph, before)
        },
        StageView::Finished(Ok(graph)) => stored_as(s, document_id, before, graph),
        StageView::Finished(Err(_)) => s.committed == before,
    }
}

/// The tables hold `graph` for the document, and everything else as before.
spec fn stored_as(
    s: AnalysisSession,
    document_id: Uuid,
    before: Tables,
    graph: GraphDataView,
) -> bool {
    &&& graph.is_valid()
    &&& s.created.len() == graph.nodes.len()
    &&& s.committed == replaced(before, document_id, graph, s.created)
}

/// Whatever the event, a step keeps the invariant.
proof fn lemma_step_keeps_inv(
    s: AnalysisSession,
    document_id: Uuid,
    before: Tables,
    event: AnalysisEventView,
)
    requires
        inv(s, document_id, before),
    ensures
        inv(s.step(event), document_id, before),
{
    match s.analysis.stage {
        StageView::Store(store) => {
            let replace = Session {
                store,
                committed: s.committed,
                working: s.working,
                created: s.created,
            };
            replace.lemma_step_follows(document_id, store.graph, before, event.for_store());
            replace.step(event.for_store()).lemma_follows_is_atomic(
                document_id,
                store.graph,
                before,
            );
        },
        StageView::Fetch => {
            if s.step(event).analysis.stage is Store {
                let graph = s.step(event).analysis.stage->Store_0.graph;
                Session::lemma_start_follows(document_id, graph, before);
            }
        },
        StageView::Extract(_) => {
            if s.step(event).analysis.stage is Store {
                let graph = s.step(event).analysis.stage->Store_0.graph;
                Session::lemma_start_follows(document_id, graph, before);
            }
        },
        StageView::Finished(_) => {},
    }
}

/// An analysis stores what it returns, and nothing when it fails. Whatever
/// happens around it, and however far it has come: once it is finished with
/// a graph, that graph is valid, and the tables hold it for the document,
/// under the identifiers that the store gave out, and hold every other
/// document as before; until then, and when it is finished with an error,
/// the tables are as they were before the analysis.
pub proof fn lemma_analysis_is_all_or_nothing(
    service: LLMServiceView,
    document_id: Uuid,
    before: Tables,
    events: Seq<AnalysisEventView>,
)
    ensures
        ({
            let s = run_analysis(service, document_id, before, events);
            match s.analysis.stage {
                StageView::Finished(Ok(graph)) => {
                    &&& graph.is_valid()
                    &&& s.created.len() == graph.nodes.len()
                    &&& s.committed == replaced(before, document_id, graph, s.created)
                },
                _ => s.committed == before,
            }
        }),
{
    lemma_run_keeps_inv(service, document_id, before, events);
    let s = run_analysis(service, document_id, before, events);
    match s.analysis.stage {
        StageView::Store(store) => {
            (Session {
                store,
                committed: s.committed,
                working: s.working,
                created: s.created,
            }).lemma_follows_is_atomic(document_id, store.graph, before);
        },
        _ => {},
    }
}

/// The invariant holds after any events.
proof fn lemma_run_keeps_inv(
    service: LLMServiceView,
    document_id: Uuid,
    before: Tables,
    events: Seq<AnalysisEventView>,
)
    ensures
        inv(run_analysis(service, document_id, before, events), document_id, before),
    decreases events.len(),
{
    if events.len() > 0 {
        lemma_run_keeps_inv(service, document_id, before, events.drop_last());
        lemma_step_keeps_inv(
            run_analysis(service, document_id, before, events.drop_last()),
            document_id,
            before,
            events.last(),
        );
    }
}

} // verus!
