//! Applications owned by users, the requests that create and change them,
//! and the selections and updates sent to the `apps` collection.
use vstd::prelude::*;

use crate::model::object_id::DocId;

verus! {

/// An application as stored in the `apps` collection.  Times are
/// milliseconds since the Unix epoch (UTC).
pub struct App {
    pub id: Option<DocId>,
    pub name: String,
    pub description: String,
    pub owner_id: DocId,
    pub created_at: i64,
    pub updated_at: i64,
}

/// Body of a request that creates an application.
pub struct CreateAppRequest {
    pub name: String,
    pub description: String,
}

/// Body of a request that changes an application; absent fields stay.
pub struct UpdateAppRequest {
    pub name: Option<String>,
    pub description: Option<String>,
}

/// A selection of stored applications: by identifier, by owner, or both.
pub struct AppFilter {
    pub id: Option<DocId>,
    pub owner_id: Option<DocId>,
}

impl AppFilter {
    /// Whether the stored application `app` is selected.
    pub open spec fn selects(self, app: App) -> bool {
        &&& (self.id matches Some(id) ==> app.id == Some(id))
        &&& (self.owner_id matches Some(owner) ==> app.owner_id == owner)
    }
}

/// The fields that an update sets; the others are left as they are.
pub struct AppUpdate {
    pub name: Option<String>,
    pub description: Option<String>,
    pub updated_at: i64,
}

impl AppUpdate {
    /// The application that results from setting this update's fields on `app`.
    pub open spec fn apply(self, app: App) -> App {
        App {
            id: app.id,
            name: match self.name {
                Some(n) => n,
                None => app.name,
            },
            description: match self.description {
                Some(d) => d,
                None => app.description,
            },
            owner_id: app.owner_id,
            created_at: app.created_at,
            updated_at: self.updated_at,
        }
    }
}

/// An update leaves the identifier, the owner and the creation time of an
/// application as they are, stamps it with the update's time, and changes
/// the name and the description only where the update gives them.
pub proof fn update_changes_only_given_fields(update: AppUpdate, app: App)
    ensures
        update.apply(app).id == app.id,
        update.apply(app).owner_id == app.owner_id,
        update.apply(app).created_at == app.created_at,
        update.apply(app).updated_at == update.updated_at,
        update.name is None ==> update.apply(app).name == app.name,
        update.description is None ==> update.apply(app).description == app.description,
        update.name matches Some(n) ==> update.apply(app).name == n,
        update.description matches Some(d) ==> update.apply(app).description == d,
{
}

/// Applying the same update twice gives what applying it once gives.
pub proof fn update_is_idempotent(update: AppUpdate, app: App)
    ensures
        update.apply(update.apply(app)) == update.apply(app),
{
}

/// An update never moves an application in or out of a selection: a
/// selection by identifier and owner selects the updated application exactly
/// when it selected it before.
pub proof fn update_keeps_selection(update: AppUpdate, filter: AppFilter, app: App)
    ensures
        filter.selects(update.apply(app)) == filter.selects(app),
{
}

} // verus!
