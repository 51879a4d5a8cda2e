//! The connection handle and the three things done with it: the handshake
//! that produces it, the statement that is sent through it, and the check of
//! a schema migration's response.
//!
//! The network round trips are the caller's. The handshake is a state
//! machine: the caller asks it what to do next, does that, and reports what
//! came of it.

use crate::db::response::{
    no_texts, num_statements, response_texts, take_text, text_at, TextOutcome,
};
use vstd::prelude::*;

verus! {

/// One authenticated session, bound to the namespace and the database that
/// were selected on it.
#[derive(Clone, Debug)]
pub struct Database<C> {
    /// The transport that the session runs on.
    pub client: C,
    /// The namespace that the session is bound to.
    pub name_space: String,
    /// The database that the session is bound to.
    pub db_name: String,
}

/// A handle as contracts see it: its names as sequences of characters.
pub struct DatabaseView<C> {
    pub client: C,
    pub name_space: Seq<char>,
    pub db_name: Seq<char>,
}

impl<C> View for Database<C> {
    type V = DatabaseView<C>;

    open spec fn view(&self) -> DatabaseView<C> {
        DatabaseView { client: self.client, name_space: self.name_space@, db_name: self.db_name@ }
    }
}

/// Why a handshake did not produce a handle. Each variant carries what the
/// service or the transport reported.
#[derive(Clone, Debug, PartialEq, Eq)]
pub enum ConnectionError {
    /// The address could not be reached.
    TransportUnreachable { reason: String },
    /// The sign-in was rejected.
    AuthenticationFailed { reason: String },
    /// The service rejected the namespace or the database name.
    ContextSelectionFailed { reason: String },
}

/// A connection error as contracts see it.
pub enum ConnectionErrorView {
    TransportUnreachable { reason: Seq<char> },
    AuthenticationFailed { reason: Seq<char> },
    ContextSelectionFailed { reason: Seq<char> },
}

impl View for ConnectionError {
    type V = ConnectionErrorView;

    open spec fn view(&self) -> ConnectionErrorView {
        match *self {
            ConnectionError::TransportUnreachable { reason } => {
                ConnectionErrorView::TransportUnreachable { reason: reason@ }
            },
            ConnectionError::AuthenticationFailed { reason } => {
                ConnectionErrorView::AuthenticationFailed { reason: reason@ }
            },
            ConnectionError::ContextSelectionFailed { reason } => {
                ConnectionErrorView::ContextSelectionFailed { reason: reason@ }
            },
        }
    }
}

/// The namespace that every session selects.
pub open spec fn session_name_space() -> Seq<char> {
    "database"@
}

/// The database that every session selects.
pub open spec fn session_db_name() -> Seq<char> {
    "storage"@
}

/// Where a handshake stands.
#[derive(Debug)]
pub enum Handshake<C> {
    /// No transport yet.
    Connecting { address: String },
    /// Connected, not signed in.
    Authenticating { client: C },
    /// Signed in, no namespace and database selected.
    SelectingContext { client: C },
    /// Done: the session is usable.
    Established { handle: Database<C> },
    /// Done: there is no session.
    Failed { error: ConnectionError },
}

/// A handshake's state as contracts see it.
pub enum HandshakeView<C> {
    Connecting { address: Seq<char> },
    Authenticating { client: C },
    SelectingContext { client: C },
    Established { handle: DatabaseView<C> },
    Failed { error: ConnectionErrorView },
}

impl<C> View for Handshake<C> {
    type V = HandshakeView<C>;

    open spec fn view(&self) -> HandshakeView<C> {
        match *self {
            Handshake::Connecting { address } => HandshakeView::Connecting { address: address@ },
            Handshake::Authenticating { client } => HandshakeView::Authenticating { client },
            Handshake::SelectingContext { client } => HandshakeView::SelectingContext { client },
            Handshake::Established { handle } => HandshakeView::Established { handle: handle@ },
            Handshake::Failed { error } => HandshakeView::Failed { error: error@ },
        }
    }
}

/// What the caller of a handshake is to do next.
#[derive(Clone, Debug, PartialEq, Eq)]
pub enum Request {
    /// Open a transport to the address.
    OpenTransport { address: String },
    /// Sign in on the open transport with the root credentials.
    SignIn,
    /// Select the namespace and the database on the open transport.
    SelectContext { name_space: String, db_name: String },
    /// Nothing: the handshake is over.
    Finished,
}

/// A request as contracts see it.
pub enum RequestView {
    OpenTransport { address: Seq<char> },
    SignIn,
    SelectContext { name_space: Seq<char>, db_name: Seq<char> },
    Finished,
}

impl View for Request {
    type V = RequestView;

    open spec fn view(&self) -> RequestView {
        match *self {
            Request::OpenTransport { address } => RequestView::OpenTransport { address: address@ },
            Request::SignIn => RequestView::SignIn,
            Request::SelectContext { name_space, db_name } => RequestView::SelectContext {
                name_space: name_space@,
                db_name: db_name@,
            },
            Request::Finished => RequestView::Finished,
        }
    }
}

/// What came of the last request.
#[derive(Debug)]
pub enum Outcome<C> {
    /// The transport is open.
    TransportOpened { client: C },
    /// The sign-in or the selection was accepted.
    Accepted,
    /// The request failed, with what was reported.
    Refused { reason: String },
}

/// An outcome as contracts see it.
pub enum OutcomeView<C> {
    TransportOpened { client: C },
    Accepted,
    Refused { reason: Seq<char> },
}

impl<C> View for Outcome<C> {
    type V = OutcomeView<C>;

    open spec fn view(&self) -> OutcomeView<C> {
        match *self {
            Outcome::TransportOpened { client } => OutcomeView::TransportOpened { client },
            Outcome::Accepted => OutcomeView::Accepted,
            Outcome::Refused { reason } => OutcomeView::Refused { reason: reason@ },
        }
    }
}

/// The state in which a handshake with `address` begins.
pub open spec fn handshake_begin<C>(address: Seq<char>) -> HandshakeView<C> {
    HandshakeView::Connecting { address }
}

/// The request that is open in `state`.
pub open spec fn handshake_pending<C>(state: HandshakeView<C>) -> RequestView {
    match state {
        HandshakeView::Connecting { address } => RequestView::OpenTransport { address },
        HandshakeView::Authenticating { .. } => RequestView::SignIn,
        HandshakeView::SelectingContext { .. } => RequestView::SelectContext {
            name_space: session_name_space(),
            db_name: session_db_name(),
        },
        HandshakeView::Established { .. } => RequestView::Finished,
        HandshakeView::Failed { .. } => RequestView::Finished,
    }
}

/// Whether `outcome` can be what came of the request that is open in `state`.
pub open spec fn answers<C>(state: HandshakeView<C>, outcome: OutcomeView<C>) -> bool {
    match (state, outcome) {
        (HandshakeView::Connecting { .. }, OutcomeView::TransportOpened { .. }) => true,
        (HandshakeView::Connecting { .. }, OutcomeView::Refused { .. }) => true,
        (HandshakeView::Authenticating { .. }, OutcomeView::Accepted) => true,
        (HandshakeView::Authenticating { .. }, OutcomeView::Refused { .. }) => true,
        (HandshakeView::SelectingContext { .. }, OutcomeView::Accepted) => true,
        (HandshakeView::SelectingContext { .. }, OutcomeView::Refused { .. }) => true,
        _ => false,
    }
}

/// The state after `outcome` was reported in `state`. A failure ends the
/// handshake with the error of the stage it came in; an accepted selection
/// ends it with a handle that names the namespace and the database that were
/// selected; an outcome that does not answer the open request changes nothing.
pub open spec fn handshake_step<C>(
    state: HandshakeView<C>,
    outcome: OutcomeView<C>,
) -> HandshakeView<C> {
    match (state, outcome) {
        (HandshakeView::Connecting { .. }, OutcomeView::TransportOpened { client }) => {
            HandshakeView::Authenticating { client }
        },
        (HandshakeView::Connecting { .. }, OutcomeView::Refused { reason }) => {
            HandshakeView::Failed { error: ConnectionErrorView::TransportUnreachable { reason } }
        },
        (HandshakeView::Authenticating { client }, OutcomeView::Accepted) => {
            HandshakeView::SelectingContext { client }
        },
        (HandshakeView::Authenticating { .. }, OutcomeView::Refused { reason }) => {
            HandshakeView::Failed { error: ConnectionErrorView::AuthenticationFailed { reason } }
        },
        (HandshakeView::SelectingContext { client }, OutcomeView::Accepted) => {
            HandshakeView::Established {
                handle: DatabaseView {
                    client,
                    name_space: session_name_space(),
                    db_name: session_db_name(),
                },
            }
        },
        (HandshakeView::SelectingContext { .. }, OutcomeView::Refused { reason }) => {
            HandshakeView::Failed { error: ConnectionErrorView::ContextSelectionFailed { reason } }
        },
        _ => state,
    }
}

/// What a handshake has produced: nothing while a request is open.
pub open spec fn handshake_result<C>(state: HandshakeView<C>) -> Option<
    Result<DatabaseView<C>, ConnectionErrorView>,
> {
    match state {
        HandshakeView::Established { handle } => Some(Ok(handle)),
        HandshakeView::Failed { error } => Some(Err(error)),
        _ => None,
    }
}

/// The view of what `Handshake::finish` returns.
pub open spec fn result_view<C>(result: Option<Result<Database<C>, ConnectionError>>) -> Option<
    Result<DatabaseView<C>, ConnectionErrorView>,
> {
    match result {
        Some(Ok(handle)) => Some(Ok(handle@)),
        Some(Err(error)) => Some(Err(error@)),
        None => None,
    }
}

impl<C> Database<C> {
    /// Begins the handshake with the service at `address`. The address is
    /// handed to the transport as it is.
    pub fn init(address: String) -> (state: Handshake<C>)
        ensures
            state@ == handshake_begin::<C>(address@),
    {
        Handshake::Connecting { address }
    }
}

impl<C> Handshake<C> {
    /// What the caller is to do next.
    pub fn pending(&self) -> (request: Request)
        ensures
            request@ == handshake_pending(self@),
    {
        match self {
            Handshake::Connecting { address } => Request::OpenTransport { address: address.clone() },
            Handshake::Authenticating { .. } => Request::SignIn,
            Handshake::SelectingContext { .. } => Request::SelectContext {
                name_space: String::from_str("database"),
                db_name: String::from_str("storage"),
            },
            Handshake::Established { .. } => Request::Finished,
            Handshake::Failed { .. } => Request::Finished,
        }
    }

    /// The transport, while it is open and not yet handed over in a handle.
    pub fn client(&self) -> (client: Option<&C>)
        ensures
            match self@ {
                HandshakeView::Authenticating { client: held } => client == Some(&held),
                HandshakeView::SelectingContext { client: held } => client == Some(&held),
                _ => client is None,
            },
    {
        match self {
            Handshake::Authenticating { client } => Some(client),
            Handshake::SelectingContext { client } => Some(client),
            _ => None,
        }
    }

    /// Takes in what came of the open request.
    pub fn step(self, outcome: Outcome<C>) -> (next: Handshake<C>)
        ensures
            next@ == handshake_step(self@, outcome@),
    {
        match self {
            Handshake::Connecting { address } => match outcome {
                Outcome::TransportOpened { client } => Handshake::Authenticating { client },
                Outcome::Refused { reason } => Handshake::Failed {
                    error: ConnectionError::TransportUnreachable { reason },
                },
                Outcome::Accepted => Handshake::Connecting { address },
            },
            Handshake::Authenticating { client } => match outcome {
                Outcome::Accepted => Handshake::SelectingContext { client },
                Outcome::Refused { reason } => Handshake::Failed {
                    error: ConnectionError::AuthenticationFailed { reason },
                },
                Outcome::TransportOpened { .. } => Handshake::Authenticating { client },
            },
            Handshake::SelectingContext { client } => match outcome {
                Outcome::Accepted => Handshake::Established {
                    handle: Database {
                        client,
                        name_space: String::from_str("database"),
                        db_name: String::from_str("storage"),
                    },
                },
                Outcome::Refused { reason } => Handshake::Failed {
                    error: ConnectionError::ContextSelectionFailed { reason },
                },
                Outcome::TransportOpened { .. } => Handshake::SelectingContext { client },
            },
            Handshake::Established { handle } => Handshake::Established { handle },
            Handshake::Failed { error } => Handshake::Failed { error },
        }
    }

    /// The handle or the error, once the handshake is over.
    pub fn finish(self) -> (result: Option<Result<Database<C>, ConnectionError>>)
        ensures
            result_view(result) == handshake_result(self@),
    {
        match self {
            Handshake::Established { handle } => Some(Ok(handle)),
            Handshake::Failed { error } => Some(Err(error)),
            _ => None,
        }
    }
}

/// How many requests a handshake in `state` may still make.
pub open spec fn requests_left<C>(state: HandshakeView<C>) -> nat {
    match state {
        HandshakeView::Connecting { .. } => 3,
        HandshakeView::Authenticating { .. } => 2,
        HandshakeView::SelectingContext { .. } => 1,
        HandshakeView::Established { .. } => 0,
        HandshakeView::Failed { .. } => 0,
    }
}

/// Every answer to the open request brings the handshake closer to its end,
/// and nothing else moves it: a handshake is over once `requests_left` is 0,
/// which no more than three answers bring about.
pub proof fn lemma_handshake_advances<C>(state: HandshakeView<C>, outcome: OutcomeView<C>)
    ensures
        answers(state, outcome) ==> requests_left(handshake_step(state, outcome)) < requests_left(
            state,
        ),
        !answers(state, outcome) ==> handshake_step(state, outcome) == state,
        requests_left(state) == 0 <==> handshake_pending(state) == RequestView::Finished,
        requests_left(state) == 0 <==> handshake_result(state) is Some,
{
}

/// A transport that cannot be opened ends the handshake at once, with
/// `TransportUnreachable` and what the transport reported: no request stays
/// open, and nothing that is reported later changes the result.
pub proof fn lemma_unreachable_address_fails<C>(
    address: Seq<char>,
    reason: Seq<char>,
    later: OutcomeView<C>,
)
    ensures
        ({
            let failed = handshake_step(
                handshake_begin::<C>(address),
                OutcomeView::Refused { reason },
            );
            &&& handshake_result(failed) == Some(
                Err::<DatabaseView<C>, _>(ConnectionErrorView::TransportUnreachable { reason }),
            )
            &&& handshake_pending(failed) == RequestView::Finished
            &&& handshake_step(failed, later) == failed
        }),
{
}

/// The state of a handshake with `address` whose three requests were answered
/// by `opened`, `signed_in` and `selected`, in this order.
pub open spec fn handshake_after<C>(
    address: Seq<char>,
    opened: OutcomeView<C>,
    signed_in: OutcomeView<C>,
    selected: OutcomeView<C>,
) -> HandshakeView<C> {
    handshake_step(
        handshake_step(handshake_step(handshake_begin(address), opened), signed_in),
        selected,
    )
}

/// A handshake produces a handle exactly when the transport was opened and
/// both the sign-in and the selection were accepted. The handle then holds
/// that transport, and its namespace and database are the ones that the
/// handshake asked to select.
pub proof fn lemma_handshake_succeeds<C>(
    address: Seq<char>,
    opened: OutcomeView<C>,
    signed_in: OutcomeView<C>,
    selected: OutcomeView<C>,
)
    ensures
        handshake_result(handshake_after(address, opened, signed_in, selected)) matches Some(Ok(_))
            <==> opened is TransportOpened && signed_in is Accepted && selected is Accepted,
        opened matches OutcomeView::TransportOpened { client } ==> (signed_in is Accepted
            && selected is Accepted ==> handshake_result(
            handshake_after(address, opened, signed_in, selected),
        ) == Some(
            Ok::<_, ConnectionErrorView>(
                DatabaseView {
                    client,
                    name_space: session_name_space(),
                    db_name: session_db_name(),
                },
            ),
        )),
        handshake_result(handshake_after(address, opened, signed_in, selected)) matches Some(
            Ok(handle),
        ) ==> handshake_pending(
            handshake_step(handshake_step(handshake_begin::<C>(address), opened), signed_in),
        ) == (RequestView::SelectContext {
            name_space: handle.name_space,
            db_name: handle.db_name,
        }),
{
}

/// Two handshakes share nothing: each ends in a handle on the transport that
/// was opened for it, whatever the other was given.
pub proof fn lemma_handles_independent<C>(address: Seq<char>, first: C, second: C)
    ensures
        ({
            let one = handshake_after(
                address,
                OutcomeView::TransportOpened { client: first },
                OutcomeView::Accepted,
                OutcomeView::Accepted,
            );
            let other = handshake_after(
                address,
                OutcomeView::TransportOpened { client: second },
                OutcomeView::Accepted,
                OutcomeView::Accepted,
            );
            &&& one matches HandshakeView::Established { handle } && handle.client == first
            &&& other matches HandshakeView::Established { handle } && handle.client == second
        }),
{
}

/// The root credentials that the sign-in uses.
#[derive(Clone, Debug, PartialEq, Eq)]
pub struct RootCredentials {
    pub username: String,
    pub password: String,
}

impl RootCredentials {
    /// The credentials, from what the environment holds of each. Both have to
    /// be there: with one of them absent there is nothing to sign in with, and
    /// start-up ends before this is called.
    pub fn from_environment(username: Option<String>, password: Option<String>) -> (credentials:
        RootCredentials)
        requires
            username is Some,
            password is Some,
        ensures
            username == Some(credentials.username),
            password == Some(credentials.password),
    {
        RootCredentials { username: username.unwrap(), password: password.unwrap() }
    }
}

/// A statement on its way to the service.
#[derive(Clone, Debug, PartialEq, Eq)]
pub struct Statement {
    /// What is sent.
    pub text: String,
    /// The line that is recorded before it is sent.
    pub diagnostic: String,
}

/// A failure that the service reported for a whole query.
#[derive(Clone, Debug, PartialEq, Eq)]
pub struct ExecutionError {
    pub reason: String,
}

/// The statement of a schema that did not go through. Start-up does not go on
/// after one.
#[derive(Clone, Debug, PartialEq, Eq)]
pub struct MigrationError {
    /// The index of the statement.
    pub index: usize,
    /// The message of the error that reading its result ended with.
    pub reason: String,
}

/// What the diagnostic line of every statement begins with.
pub open spec fn diagnostic_prefix() -> Seq<char> {
    "Sending query: "@
}

/// Whether each of the first `count` statements reads without an error.
pub open spec fn reads_cleanly(texts: Map<int, TextOutcome>, count: int) -> bool {
    forall|i: int| 0 <= i < count ==> (#[trigger] text_at(texts, i)) is Ok
}

/// Whether statement `index` is the first of the first `count` statements
/// that does not read, and `message` what its error says.
pub open spec fn fails_first_at(
    texts: Map<int, TextOutcome>,
    count: int,
    index: int,
    message: Seq<char>,
) -> bool {
    &&& 0 <= index < count
    &&& reads_cleanly(texts, index)
    &&& text_at(texts, index) == Err::<Option<Seq<char>>, Seq<char>>(message)
}

/// `texts` without its first `count` statements.
pub open spec fn without_first(texts: Map<int, TextOutcome>, count: int) -> Map<int, TextOutcome> {
    texts.remove_keys(Set::new(|i: int| 0 <= i < count))
}

impl<C> Database<C> {
    /// Prepares `query` for sending: the text goes out as it came in, one
    /// statement or several, and the diagnostic line quotes it whole.
    pub fn db_query(&self, query: String) -> (statement: Statement)
        ensures
            statement.text@ == query@,
            statement.diagnostic@ == diagnostic_prefix() + query@,
    {
        let mut diagnostic = String::from_str("Sending query: ");
        diagnostic.append(query.as_str());
        Statement { text: query, diagnostic }
    }

    /// Checks the response to a schema. As many indices are read as the
    /// response holds statements, from 0 on and in order, each as optional
    /// text, up to the first that does not read. The schema went through if
    /// all of them read; if not, the error names the index and says why.
    ///
    /// On the response to a query, from which nothing was taken yet, these
    /// indices are those of all its statements. Of a response that was partly
    /// read before, a statement with a higher index is not looked at.
    ///
    /// Every statement that was read has left the response; a statement that
    /// did not read may have taken all the others with it.
    pub fn set_schema(&mut self, response: &mut surrealdb::Response) -> (checked: Result<
        (),
        MigrationError,
    >)
        ensures
            *final(self) == *old(self),
            ({
                let texts = response_texts(*old(response));
                let left = response_texts(*final(response));
                let held = texts.dom().len() as int;
                &&& checked is Ok <==> reads_cleanly(texts, held)
                &&& match checked {
                    Ok(_) => reads_cleanly(texts, held) && left == without_first(texts, held),
                    Err(error) => {
                        &&& fails_first_at(texts, held, error.index as int, error.reason@)
                        &&& left == without_first(texts, error.index + 1) || left == no_texts()
                    },
                }
            }),
    {
        let ghost before = response_texts(*response);
        let count = num_statements(response);
        let mut index: usize = 0;
        while index < count
            invariant
                index <= count,
                before == response_texts(*old(response)),
                *self == *old(self),
                count == before.dom().len(),
                reads_cleanly(before, index as int),
                response_texts(*response) == without_first(before, index as int),
            decreases count - index,
        {
            assert(text_at(response_texts(*response), index as int) == text_at(
                before,
                index as int,
            ));
            let taken = take_text(response, index);
            match taken {
                Ok(_) => {
                    assert(response_texts(*response) =~= without_first(before, index + 1));
                },
                Err(reason) => {
                    assert(response_texts(*response) == no_texts() || response_texts(*response)
                        =~= without_first(before, index + 1));
                    return Err(MigrationError { index, reason });
                },
            }
            index = index + 1;
        }
        Ok(())
    }
}

} // verus!
