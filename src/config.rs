use vstd::prelude::*;
use crate::events::EnvelopeModel;
use crate::framework::CqrsFramework;
use crate::queries::ViewModel;
use crate::services::HappyPathBankAccountServices;

verus! {

/// The executor of this application: an empty in-memory event store, the
/// account views, and services that approve every request.
pub fn cqrs_framework() -> (r: CqrsFramework<HappyPathBankAccountServices>)
    ensures
        r.wf(),
        r@.events == Seq::<EnvelopeModel>::empty(),
        r@.views == Map::<Seq<char>, ViewModel>::empty(),
{
    CqrsFramework::new(HappyPathBankAccountServices)
}

} // verus!
