//! The join saga of the authentication service: look the player up, check the
//! password or register a new account, open a session, and undo a
//! registration when its session cannot be stored (an existing account is
//! never touched).
//!
//! The saga decides; the service performs each action it asks for (a database
//! query, a session-store call) and hands back what happened as an event.
use vstd::prelude::*;
use vstd::string::StringExecFns;
use crate::credentials::{
    bcrypt_verify_outcome, fresh_user_id, hash_password, is_bcrypt_hash_of, is_default_cost_hash, is_uuid_v4_string,
    verify_password,
};
use crate::messages::{is_join_response, is_rpc_error, join_response, rpc_error, JoinRequest, JoinResponse, RpcCode, RpcError};
use crate::text::{session_key, session_key_of};

verus! {

/// How long a session lives in the session store, in seconds (two hours).
pub const SESSION_TTL_SECS: u64 = 7200;

/// Where the saga stands.
pub enum JoinStage {
    /// Waiting for the account lookup by username.
    LookingUp,
    /// Waiting for the new account to be inserted.
    Registering,
    /// Waiting for a connection to the session store.
    Connecting,
    /// Waiting for the session to be written.
    StoringSession,
    /// Waiting for the compensating delete, then answering with the reply held here.
    Compensating(Result<JoinResponse, RpcError>),
    /// The reply has been given.
    Finished,
}

/// The state of one join request.
pub struct JoinSaga {
    pub username: String,
    pub password: String,
    /// The account id once known: looked up, or freshly generated.
    pub user_id: String,
    /// Whether this request is registering a new account (and so owns it).
    pub registered: bool,
    pub stage: JoinStage,
}

/// What the service asks the outside world to do next.
pub enum JoinAction {
    /// Query the id and password hash of the account called `username`.
    LookupUser { username: String },
    /// Insert a new account with score 0.
    InsertUser { id: String, username: String, password_hash: String },
    /// Open a connection to the session store.
    ConnectSessionStore,
    /// Write `key -> username` into the session store, expiring after `ttl_secs`.
    StoreSession { key: String, username: String, ttl_secs: u64 },
    /// Delete the account `id` if its score is still 0 (the compensation).
    DeleteUnscoredUser { id: String },
    /// Answer the player.
    Reply(Result<JoinResponse, RpcError>),
}

/// What happened when the service performed the last action.
pub enum JoinEvent {
    /// The lookup query failed.
    LookupFailed,
    /// No account has that username.
    UserNotFound,
    /// The account exists, with this id and password hash.
    UserFound { id: String, password_hash: String },
    /// The insert succeeded (`ok`) or failed.
    InsertFinished { ok: bool },
    /// The session store could (`ok`) or could not be reached.
    SessionStoreReached { ok: bool },
    /// The session was (`ok`) or was not written.
    SessionWritten { ok: bool },
    /// The compensating delete was attempted; its outcome does not matter.
    CompensationDone,
}

pub open spec fn lookup_db_error_message() -> Seq<char> { "Error al consultar la base de datos"@ }
pub open spec fn wrong_password_message() -> Seq<char> { "Contraseña incorrecta."@ }
pub open spec fn register_error_message() -> Seq<char> { "Error al registrar el nuevo usuario"@ }
pub open spec fn sessions_unavailable_message() -> Seq<char> { "Servicio de sesiones no disponible."@ }
pub open spec fn access_granted_message() -> Seq<char> { "Acceso concedido. Esperando al moderador..."@ }
pub open spec fn session_error_message() -> Seq<char> { "Error interno al iniciar sesión."@ }

impl JoinSaga {
    /// The event kinds the saga can take in its current stage.
    pub open spec fn awaits(self, event: JoinEvent) -> bool {
        match self.stage {
            JoinStage::LookingUp => event is LookupFailed || event is UserNotFound || event is UserFound,
            JoinStage::Registering => event is InsertFinished,
            JoinStage::Connecting => event is SessionStoreReached,
            JoinStage::StoringSession => event is SessionWritten,
            JoinStage::Compensating(_) => event is CompensationDone,
            JoinStage::Finished => false,
        }
    }

    /// A reply held back for after the compensation is never a granted access;
    /// only a registration compensates; a lookup has not registered yet.
    pub open spec fn well_formed(self) -> bool {
        &&& self.stage matches JoinStage::Compensating(Ok(r)) ==> !r.success
        &&& self.stage is Compensating ==> self.registered
        &&& self.stage is LookingUp ==> !self.registered
    }

    /// How many steps at most remain before the reply.
    pub open spec fn steps_left(self) -> nat {
        match self.stage {
            JoinStage::LookingUp => 5,
            JoinStage::Registering => 4,
            JoinStage::Connecting => 3,
            JoinStage::StoringSession => 2,
            JoinStage::Compensating(_) => 1,
            JoinStage::Finished => 0,
        }
    }

    /// `post` keeps the request of `self`, with the given id, registration flag and stage.
    pub open spec fn moves_to(self, post: JoinSaga, user_id: Seq<char>, registered: bool, stage: JoinStage) -> bool {
        &&& post.username == self.username
        &&& post.password == self.password
        &&& post.user_id@ == user_id
        &&& post.registered == registered
        &&& post.stage == stage
    }

    /// `post` keeps everything of `self` but the stage.
    pub open spec fn stays_with(self, post: JoinSaga, stage: JoinStage) -> bool {
        self.moves_to(post, self.user_id@, self.registered, stage)
    }
}

/// The saga answers with the error `code` and `message` and finishes.
pub open spec fn fails_with(pre: JoinSaga, post: JoinSaga, action: JoinAction, code: RpcCode, message: Seq<char>) -> bool {
    &&& pre.stays_with(post, JoinStage::Finished)
    &&& action matches JoinAction::Reply(Err(e)) && is_rpc_error(e, code, message)
}

/// The saga asks for the compensating delete of its account and holds a reply
/// for afterwards.
pub open spec fn compensates(pre: JoinSaga, post: JoinSaga, action: JoinAction) -> bool {
    &&& post.username == pre.username
    &&& post.password == pre.password
    &&& post.user_id == pre.user_id
    &&& post.registered == pre.registered
    &&& post.stage is Compensating
    &&& action matches JoinAction::DeleteUnscoredUser { id } && id@ == pre.user_id@
}

/// Registration with the drawn id `id` and the outcome `hashed` of hashing
/// the password: the insert of the new account, or the registration error
/// when no hash came out.
pub open spec fn registers(pre: JoinSaga, id: String, hashed: Result<String, bcrypt::BcryptError>, post: JoinSaga, action: JoinAction) -> bool {
    match hashed {
        Ok(h) => {
            &&& pre.moves_to(post, id@, true, JoinStage::Registering)
            &&& action matches JoinAction::InsertUser { id: new_id, username, password_hash } && {
                &&& new_id@ == id@
                &&& username@ == pre.username@
                &&& password_hash@ == h@
            }
        },
        Err(_) => fails_with(pre, post, action, RpcCode::Internal, register_error_message()),
    }
}

/// One step of the saga: from `pre`, on `event`, the saga becomes `post` and asks for `action`.
pub open spec fn join_transition(pre: JoinSaga, event: JoinEvent, post: JoinSaga, action: JoinAction) -> bool {
    match pre.stage {
        JoinStage::LookingUp => match event {
            JoinEvent::LookupFailed => fails_with(pre, post, action, RpcCode::Internal, lookup_db_error_message()),
            JoinEvent::UserFound { id, password_hash } =>
                if bcrypt_verify_outcome(pre.password@, password_hash@) == Some(true) {
                    pre.moves_to(post, id@, false, JoinStage::Connecting) && action is ConnectSessionStore
                } else {
                    &&& pre.stays_with(post, JoinStage::Finished)
                    &&& action matches JoinAction::Reply(Ok(r))
                        && is_join_response(r, false, Seq::empty(), wrong_password_message())
                },
            JoinEvent::UserNotFound => exists|id: String, hashed: Result<String, bcrypt::BcryptError>| {
                &&& #[trigger] registers(pre, id, hashed, post, action)
                &&& is_uuid_v4_string(id@)
                &&& hashed matches Ok(h) ==> is_bcrypt_hash_of(pre.password@, h@)
            },
            _ => false,
        },
        JoinStage::Registering => match event {
            JoinEvent::InsertFinished { ok } =>
                if ok {
                    pre.stays_with(post, JoinStage::Connecting) && action is ConnectSessionStore
                } else {
                    fails_with(pre, post, action, RpcCode::Internal, register_error_message())
                },
            _ => false,
        },
        JoinStage::Connecting => match event {
            JoinEvent::SessionStoreReached { ok } =>
                if ok {
                    &&& pre.stays_with(post, JoinStage::StoringSession)
                    &&& action matches JoinAction::StoreSession { key, username, ttl_secs } && {
                        &&& key@ == session_key_of(pre.user_id@)
                        &&& username@ == pre.username@
                        &&& ttl_secs == SESSION_TTL_SECS
                    }
                } else if pre.registered {
                    &&& compensates(pre, post, action)
                    &&& post.stage matches JoinStage::Compensating(Err(e))
                        && is_rpc_error(e, RpcCode::Unavailable, sessions_unavailable_message())
                } else {
                    fails_with(pre, post, action, RpcCode::Unavailable, sessions_unavailable_message())
                },
            _ => false,
        },
        JoinStage::StoringSession => match event {
            JoinEvent::SessionWritten { ok } =>
                if ok {
                    &&& pre.stays_with(post, JoinStage::Finished)
                    &&& action matches JoinAction::Reply(Ok(r))
                        && is_join_response(r, true, pre.user_id@, access_granted_message())
                } else if pre.registered {
                    &&& compensates(pre, post, action)
                    &&& post.stage matches JoinStage::Compensating(Ok(r))
                        && is_join_response(r, false, Seq::empty(), session_error_message())
                } else {
                    &&& pre.stays_with(post, JoinStage::Finished)
                    &&& action matches JoinAction::Reply(Ok(r))
                        && is_join_response(r, false, Seq::empty(), session_error_message())
                },
            _ => false,
        },
        JoinStage::Compensating(reply) => match event {
            JoinEvent::CompensationDone =>
                pre.stays_with(post, JoinStage::Finished) && action == JoinAction::Reply(reply),
            _ => false,
        },
        JoinStage::Finished => false,
    }
}

impl JoinSaga {
    /// Starts the saga for a join request: the first action looks the username up.
    pub fn start(request: JoinRequest) -> (out: (JoinSaga, JoinAction))
        ensures
            out.0.username == request.username,
            out.0.password == request.password,
            out.0.user_id@ == Seq::<char>::empty(),
            !out.0.registered,
            out.0.stage is LookingUp,
            out.1 matches JoinAction::LookupUser { username } && username == request.username,
    {
        let username = request.username.clone();
        let saga = JoinSaga {
            username: request.username,
            password: request.password,
            user_id: String::new(),
            registered: false,
            stage: JoinStage::LookingUp,
        };
        (saga, JoinAction::LookupUser { username })
    }

    fn finish_with_error(self, code: RpcCode, message: &str) -> (out: (JoinSaga, JoinAction))
        ensures
            fails_with(self, out.0, out.1, code, message@),
    {
        let saga = JoinSaga { stage: JoinStage::Finished, ..self };
        (saga, JoinAction::Reply(Err(rpc_error(code, message))))
    }

    fn compensate(self, reply: Result<JoinResponse, RpcError>) -> (out: (JoinSaga, JoinAction))
        ensures
            compensates(self, out.0, out.1),
            out.0.stage == JoinStage::Compensating(reply),
    {
        let id = self.user_id.clone();
        let saga = JoinSaga { stage: JoinStage::Compensating(reply), ..self };
        (saga, JoinAction::DeleteUnscoredUser { id })
    }

    /// Registers the player of a saga whose username was not found, with the
    /// drawn id and the outcome of hashing the password: the new account is
    /// inserted with that hash, or, when hashing failed, the player is told
    /// the registration failed.
    pub fn register_with(self, id: String, hashed: Result<String, bcrypt::BcryptError>) -> (out: (JoinSaga, JoinAction))
        ensures
            registers(self, id, hashed, out.0, out.1),
    {
        match hashed {
            Ok(password_hash) => {
                let new_id = id.clone();
                let username = self.username.clone();
                let saga = JoinSaga { user_id: id, registered: true, stage: JoinStage::Registering, ..self };
                (saga, JoinAction::InsertUser { id: new_id, username, password_hash })
            },
            Err(_) => self.finish_with_error(RpcCode::Internal, "Error al registrar el nuevo usuario"),
        }
    }

    /// Takes the outcome of the last action and decides the next one.
    pub fn advance(self, event: JoinEvent) -> (out: (JoinSaga, JoinAction))
        requires
            self.awaits(event),
        ensures
            join_transition(self, event, out.0, out.1),
    {
        match self.stage {
            JoinStage::LookingUp => match event {
                JoinEvent::LookupFailed => {
                    self.finish_with_error(RpcCode::Internal, "Error al consultar la base de datos")
                },
                JoinEvent::UserFound { id, password_hash } => {
                    let valid = match verify_password(self.password.as_str(), password_hash.as_str()) {
                        Ok(b) => b,
                        Err(_) => false,
                    };
                    if valid {
                        let saga = JoinSaga { user_id: id, registered: false, stage: JoinStage::Connecting, ..self };
                        (saga, JoinAction::ConnectSessionStore)
                    } else {
                        proof { reveal_strlit(""); assert(""@ =~= Seq::<char>::empty()); }
                        let saga = JoinSaga { stage: JoinStage::Finished, ..self };
                        (saga, JoinAction::Reply(Ok(join_response(false, "", "Contraseña incorrecta."))))
                    }
                },
                JoinEvent::UserNotFound => {
                    let new_id = fresh_user_id();
                    let hashed = hash_password(self.password.as_str());
                    let ghost pre = self;
                    let out = self.register_with(new_id, hashed);
                    assert(registers(pre, new_id, hashed, out.0, out.1));
                    out
                },
                _ => {
                    proof { assert(false); }
                    (self, JoinAction::ConnectSessionStore)
                },
            },
            JoinStage::Registering => match event {
                JoinEvent::InsertFinished { ok } => {
                    if ok {
                        let saga = JoinSaga { stage: JoinStage::Connecting, ..self };
                        (saga, JoinAction::ConnectSessionStore)
                    } else {
                        self.finish_with_error(RpcCode::Internal, "Error al registrar el nuevo usuario")
                    }
                },
                _ => {
                    proof { assert(false); }
                    (self, JoinAction::ConnectSessionStore)
                },
            },
            JoinStage::Connecting => match event {
                JoinEvent::SessionStoreReached { ok } => {
                    if ok {
                        let key = session_key(self.user_id.as_str());
                        let username = self.username.clone();
                        let saga = JoinSaga { stage: JoinStage::StoringSession, ..self };
                        (saga, JoinAction::StoreSession { key, username, ttl_secs: SESSION_TTL_SECS })
                    } else if self.registered {
                        self.compensate(Err(rpc_error(RpcCode::Unavailable, "Servicio de sesiones no disponible.")))
                    } else {
                        self.finish_with_error(RpcCode::Unavailable, "Servicio de sesiones no disponible.")
                    }
                },
                _ => {
                    proof { assert(false); }
                    (self, JoinAction::ConnectSessionStore)
                },
            },
            JoinStage::StoringSession => match event {
                JoinEvent::SessionWritten { ok } => {
                    if ok {
                        let reply = join_response(true, self.user_id.as_str(), "Acceso concedido. Esperando al moderador...");
                        let saga = JoinSaga { stage: JoinStage::Finished, ..self };
                        (saga, JoinAction::Reply(Ok(reply)))
                    } else {
                        proof { reveal_strlit(""); assert(""@ =~= Seq::<char>::empty()); }
                        let reply = join_response(false, "", "Error interno al iniciar sesión.");
                        if self.registered {
                            self.compensate(Ok(reply))
                        } else {
                            let saga = JoinSaga { stage: JoinStage::Finished, ..self };
                            (saga, JoinAction::Reply(Ok(reply)))
                        }
                    }
                },
                _ => {
                    proof { assert(false); }
                    (self, JoinAction::ConnectSessionStore)
                },
            },
            JoinStage::Compensating(reply) => {
                let saga = JoinSaga {
                    username: self.username,
                    password: self.password,
                    user_id: self.user_id,
                    registered: self.registered,
                    stage: JoinStage::Finished,
                };
                (saga, JoinAction::Reply(reply))
            },
            JoinStage::Finished => {
                proof { assert(false); }
                (self, JoinAction::ConnectSessionStore)
            },
        }
    }
}

/// Every saga starts well formed.
pub proof fn lemma_start_well_formed(saga: JoinSaga)
    requires
        saga.stage is LookingUp,
        !saga.registered,
    ensures
        saga.well_formed(),
{
}

/// Every step keeps the saga well formed.
pub proof fn lemma_step_keeps_well_formed(pre: JoinSaga, event: JoinEvent, post: JoinSaga, action: JoinAction)
    requires
        pre.well_formed(),
        pre.awaits(event),
        join_transition(pre, event, post, action),
    ensures
        post.well_formed(),
{
}

/// The saga always ends: every step brings it closer to its reply.
pub proof fn lemma_step_progresses(pre: JoinSaga, event: JoinEvent, post: JoinSaga, action: JoinAction)
    requires
        pre.awaits(event),
        join_transition(pre, event, post, action),
    ensures
        post.steps_left() < pre.steps_left(),
        post.steps_left() == 0 <==> action is Reply,
{
}

/// A wrong password is refused without a session and without an account id.
pub proof fn lemma_wrong_password_refused(pre: JoinSaga, id: String, password_hash: String, post: JoinSaga, action: JoinAction)
    requires
        pre.stage is LookingUp,
        bcrypt_verify_outcome(pre.password@, password_hash@) != Some(true),
        join_transition(pre, JoinEvent::UserFound { id, password_hash }, post, action),
    ensures
        post.stage is Finished,
        action matches JoinAction::Reply(Ok(r)) && !r.success && r.user_id@.len() == 0,
{
}

/// Access is granted only once the session has been written, and it carries
/// the account id the saga worked with.
pub proof fn lemma_access_only_with_session(pre: JoinSaga, event: JoinEvent, post: JoinSaga, r: JoinResponse)
    requires
        pre.well_formed(),
        pre.awaits(event),
        join_transition(pre, event, post, JoinAction::Reply(Ok(r))),
        r.success,
    ensures
        pre.stage is StoringSession,
        event == (JoinEvent::SessionWritten { ok: true }),
        r.user_id@ == pre.user_id@,
{
}

/// When the session store cannot be reached or written during a
/// registration, the saga deletes the account it has just inserted (if still
/// unscored) before it answers, and that answer is a refusal.
pub proof fn lemma_registration_rolled_back(pre: JoinSaga, event: JoinEvent, post: JoinSaga, action: JoinAction, done: JoinSaga, reply: JoinAction)
    requires
        pre.registered,
        pre.awaits(event),
        event == (JoinEvent::SessionStoreReached { ok: false }) || event == (JoinEvent::SessionWritten { ok: false }),
        join_transition(pre, event, post, action),
        join_transition(post, JoinEvent::CompensationDone, done, reply),
    ensures
        action matches JoinAction::DeleteUnscoredUser { id } && id@ == pre.user_id@,
        done.stage is Finished,
        reply matches JoinAction::Reply(res) && (res matches Ok(r) ==> !r.success),
{
}

/// When the session store cannot be reached or written during a login, the
/// saga refuses the player at once and leaves the existing account alone.
pub proof fn lemma_login_keeps_account(pre: JoinSaga, event: JoinEvent, post: JoinSaga, action: JoinAction)
    requires
        !pre.registered,
        pre.awaits(event),
        event == (JoinEvent::SessionStoreReached { ok: false }) || event == (JoinEvent::SessionWritten { ok: false }),
        join_transition(pre, event, post, action),
    ensures
        post.stage is Finished,
        action matches JoinAction::Reply(res) && (res matches Ok(r) ==> !r.success),
        event == (JoinEvent::SessionStoreReached { ok: false }) ==> (action matches JoinAction::Reply(Err(e))
            && is_rpc_error(e, RpcCode::Unavailable, sessions_unavailable_message())),
{
}

/// The saga writes only its own account: it inserts only after the username
/// was not found, with the id it then works with, and it deletes only that
/// account, and only when it registered it.
pub proof fn lemma_writes_only_own_account(pre: JoinSaga, event: JoinEvent, post: JoinSaga, action: JoinAction)
    requires
        pre.well_formed(),
        pre.awaits(event),
        join_transition(pre, event, post, action),
    ensures
        action matches JoinAction::InsertUser { id, username, password_hash } ==> {
            &&& pre.stage is LookingUp
            &&& event is UserNotFound
            &&& post.registered
            &&& id@ == post.user_id@
            &&& username@ == pre.username@
        },
        action matches JoinAction::DeleteUnscoredUser { id } ==> pre.registered && id@ == pre.user_id@,
{
    if action is InsertUser {
        let (id, hashed) = choose|id: String, hashed: Result<String, bcrypt::BcryptError>| {
            &&& #[trigger] registers(pre, id, hashed, post, action)
            &&& is_uuid_v4_string(id@)
            &&& hashed matches Ok(h) ==> is_bcrypt_hash_of(pre.password@, h@)
        };
        assert(registers(pre, id, hashed, post, action));
    }
}

/// A new account is stored with a fresh id in the hyphenated UUID form and a
/// default-cost bcrypt hash that verifies the player's password.
pub proof fn lemma_registration_stores_verifiable_hash(pre: JoinSaga, post: JoinSaga, id: String, username: String, password_hash: String)
    requires
        pre.stage is LookingUp,
        join_transition(pre, JoinEvent::UserNotFound, post, JoinAction::InsertUser { id, username, password_hash }),
    ensures
        is_bcrypt_hash_of(pre.password@, password_hash@),
        is_uuid_v4_string(id@),
        post.user_id@ == id@,
        post.registered,
        username@ == pre.username@,
        post.stage is Registering,
{
    let action = JoinAction::InsertUser { id, username, password_hash };
    let (nid, hashed) = choose|nid: String, hashed: Result<String, bcrypt::BcryptError>| {
        &&& #[trigger] registers(pre, nid, hashed, post, action)
        &&& is_uuid_v4_string(nid@)
        &&& hashed matches Ok(h) ==> is_bcrypt_hash_of(pre.password@, h@)
    };
    assert(registers(pre, nid, hashed, post, action));
}

/// The password is never stored as it is: unless the password itself has the
/// shape of a default-cost hash, the stored hash differs from it.
pub proof fn lemma_stored_hash_is_not_password(password: Seq<char>, hash: Seq<char>)
    requires
        is_bcrypt_hash_of(password, hash),
        !is_default_cost_hash(password),
    ensures
        hash != password,
{
}

/// A row of the accounts table.
pub struct AccountRow {
    pub username: Seq<char>,
    pub password_hash: Seq<char>,
    pub score: int,
}

/// The accounts table, by account id.
pub type AccountTable = Map<Seq<char>, AccountRow>;

/// No two accounts share a username.
pub open spec fn usernames_distinct(table: AccountTable) -> bool {
    forall|a: Seq<char>, b: Seq<char>|
        #![trigger table.dom().contains(a), table.dom().contains(b)]
        table.dom().contains(a) && table.dom().contains(b) && a != b ==> table[a].username != table[b].username
}

/// Some account is called `username`.
pub open spec fn username_taken(table: AccountTable, username: Seq<char>) -> bool {
    exists|id: Seq<char>| #[trigger] table.dom().contains(id) && table[id].username == username
}

/// The table after the database performs `action`, under the table's keys:
/// the id is the primary key and the username is unique, so an insert that
/// would repeat either is refused and changes nothing; the compensating delete
/// removes the account only while its score is 0; other actions write nothing.
pub open spec fn after_account_write(table: AccountTable, action: JoinAction) -> AccountTable {
    match action {
        JoinAction::InsertUser { id, username, password_hash } =>
            if table.dom().contains(id@) || username_taken(table, username@) {
                table
            } else {
                table.insert(id@, AccountRow { username: username@, password_hash: password_hash@, score: 0 })
            },
        JoinAction::DeleteUnscoredUser { id } =>
            if table.dom().contains(id@) && table[id@].score == 0 {
                table.remove(id@)
            } else {
                table
            },
        _ => table,
    }
}

/// Whatever the saga asks of the accounts table, usernames stay distinct, at
/// most one account appears, and no account that stays changes its username,
/// hash or score: the saga never updates an account.
pub proof fn lemma_account_writes_keep_table_sound(table: AccountTable, action: JoinAction)
    requires
        usernames_distinct(table),
    ensures
        usernames_distinct(after_account_write(table, action)),
        forall|id: Seq<char>|
            #[trigger] after_account_write(table, action).dom().contains(id) && table.dom().contains(id)
                ==> after_account_write(table, action)[id] == table[id],
        forall|a: Seq<char>, b: Seq<char>|
            #![trigger after_account_write(table, action).dom().contains(a), after_account_write(table, action).dom().contains(b)]
            after_account_write(table, action).dom().contains(a) && !table.dom().contains(a)
                && after_account_write(table, action).dom().contains(b) && !table.dom().contains(b) ==> a == b,
{
    let after = after_account_write(table, action);
    match action {
        JoinAction::InsertUser { id, username, password_hash } => {
            if !(table.dom().contains(id@) || username_taken(table, username@)) {
                assert forall|a: Seq<char>, b: Seq<char>|
                    #![trigger after.dom().contains(a), after.dom().contains(b)]
                    after.dom().contains(a) && after.dom().contains(b) && a != b
                        implies after[a].username != after[b].username by {
                    if a == id@ {
                        assert(table.dom().contains(b));
                        assert(!(table.dom().contains(b) && table[b].username == username@));
                    } else if b == id@ {
                        assert(table.dom().contains(a));
                        assert(!(table.dom().contains(a) && table[a].username == username@));
                    } else {
                        assert(table.dom().contains(a) && table.dom().contains(b));
                    }
                }
            }
        },
        JoinAction::DeleteUnscoredUser { id } => {
            assert forall|a: Seq<char>, b: Seq<char>|
                #![trigger after.dom().contains(a), after.dom().contains(b)]
                after.dom().contains(a) && after.dom().contains(b) && a != b
                    implies after[a].username != after[b].username by {
                assert(table.dom().contains(a) && table.dom().contains(b));
            }
        },
        _ => {},
    }
}

} // verus!
