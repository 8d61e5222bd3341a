use vstd::prelude::*;
use crate::database::handler::DbResult;

verus! {

/// A third-party client, provisioned out of band.
pub struct ClientCredential {
    pub id: String,
    pub secret: String,
    /// The registered callback, without a query string.
    pub redirect_uri: String,
}

pub struct ClientCredentialView {
    pub id: Seq<char>,
    pub secret: Seq<char>,
    pub redirect_uri: Seq<char>,
}

impl View for ClientCredential {
    type V = ClientCredentialView;

    open spec fn view(&self) -> ClientCredentialView {
        ClientCredentialView { id: self.id@, secret: self.secret@, redirect_uri: self.redirect_uri@ }
    }
}

/// View of the outcome of a client lookup.
pub open spec fn client_lookup_view(found: DbResult<ClientCredential>) -> DbResult<
    ClientCredentialView,
> {
    match found {
        Ok(client) => Ok(client@),
        Err(e) => Err(e),
    }
}

/// The client side of the credential store. The relation says for which
/// request an answer was given; an implementation may give it a body of its
/// own.
pub trait ClientCredentialHandler {
    /// `outcome` answers a lookup of the client `id`.
    open spec fn found(&self, id: Seq<char>, outcome: DbResult<ClientCredentialView>) -> bool {
        true
    }

    fn get_by_id(&self, id: &String) -> (outcome: DbResult<ClientCredential>)
        ensures
            self.found(id@, client_lookup_view(outcome)),
    ;
}

} // verus!
