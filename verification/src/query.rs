//! The read path: how the outcome of a query becomes the status that a
//! caller sees, and the query of an identity's balance.
//!
//! Queries read committed state only. The reads themselves are handed in as
//! functions, so that what is decided here holds whatever they return.

use crate::bytes::hash_from_bytes;
use crate::version_counters::ProtocolVersion;
use vstd::prelude::*;
use vstd::string::StringExecFns;

verus! {

/// The status codes that the read path answers with.
#[derive(Clone, Copy, PartialEq, Eq, Debug, Structural)]
pub enum StatusCode {
    /// An argument of the request is invalid.
    InvalidArgument,
    /// The query itself is malformed.
    InvalidQuery,
    /// What was asked for does not exist.
    NotFound,
    /// The server failed in a way that is not classified.
    Unknown,
    /// The server failed.
    Internal,
    /// The server cannot answer yet.
    Unavailable,
    /// The endpoint is not supported.
    Unimplemented,
}

/// A failure as a caller of the read path sees it.
#[derive(PartialEq, Eq, Debug)]
pub struct Status {
    pub code: StatusCode,
    pub message: String,
}

/// What a [`Status`] holds.
pub struct StatusView {
    pub code: StatusCode,
    pub message: Seq<char>,
}

impl View for Status {
    type V = StatusView;

    open spec fn view(&self) -> StatusView {
        StatusView { code: self.code, message: self.message@ }
    }
}

/// Why a query gives no data.
#[derive(PartialEq, Eq, Debug)]
pub enum QueryError {
    /// What was asked for does not exist.
    NotFound(String),
    /// An argument of the request is invalid.
    InvalidArgument(String),
    /// The query itself is malformed; the text says how.
    Query(String),
    /// Any other failure, with its text.
    Unclassified(String),
}

/// The outcome of a validation: the data, or the errors that were found.
#[derive(PartialEq, Eq, Debug)]
pub struct ValidationResult<T, E> {
    pub errors: Vec<E>,
    pub data: Option<T>,
}

/// The outcome of a query.
pub type QueryValidationResult<T> = ValidationResult<T, QueryError>;

impl<T, E> ValidationResult<T, E> {
    /// A valid outcome that holds `data`.
    pub fn new_with_data(data: T) -> (result: Self)
        ensures
            result.errors@.len() == 0,
            result.data == Some(data),
    {
        ValidationResult { errors: Vec::new(), data: Some(data) }
    }

    /// An outcome that holds `error` and no data.
    pub fn new_with_error(error: E) -> (result: Self)
        ensures
            result.errors@ == seq![error],
            result.data is None,
    {
        let mut errors = Vec::new();
        errors.push(error);
        ValidationResult { errors, data: None }
    }

    /// Adds `errors` behind those that the outcome holds.
    pub fn add_errors(&mut self, errors: Vec<E>)
        ensures
            final(self).errors@ == old(self).errors@ + errors@,
            final(self).data == old(self).data,
    {
        let mut errors = errors;
        self.errors.append(&mut errors);
    }

    /// Whether no error was found.
    pub fn is_valid(&self) -> (valid: bool)
        ensures
            valid == (self.errors@.len() == 0),
    {
        self.errors.is_empty()
    }
}

/// The message of the status of an endpoint that is not supported.
pub open spec fn unimplemented_text() -> Seq<char> {
    "the endpoint is not supported"@
}

/// The message of the status of a query before the platform is initialized.
pub open spec fn uninitialized_text() -> Seq<char> {
    "platform is not initialized"@
}

/// The text of the failure of a valid outcome that holds no data.
pub open spec fn missing_data_text() -> Seq<char> {
    "valid query result holds no data"@
}

/// The status of a failure of the server while it served a query: internal,
/// with the failure's text behind `query: `.
pub open spec fn internal_status(error: Seq<char>) -> StatusView {
    StatusView { code: StatusCode::Internal, message: "query: "@ + error }
}

/// The status that an error of a query becomes. Each kind of error has a code
/// of its own: what does not exist is not found, an invalid argument and a
/// malformed query are told apart, and anything else is unknown. The message
/// is the error's text.
pub open spec fn status_of(error: QueryError) -> StatusView {
    match error {
        QueryError::NotFound(message) => StatusView {
            code: StatusCode::NotFound,
            message: message@,
        },
        QueryError::InvalidArgument(message) => StatusView {
            code: StatusCode::InvalidArgument,
            message: message@,
        },
        QueryError::Query(message) => StatusView {
            code: StatusCode::InvalidQuery,
            message: message@,
        },
        QueryError::Unclassified(message) => StatusView {
            code: StatusCode::Unknown,
            message: message@,
        },
    }
}

/// The status that an error of a query becomes, see [`status_of`].
pub fn query_error_into_status(error: QueryError) -> (status: Status)
    ensures
        status@ == status_of(error),
{
    match error {
        QueryError::NotFound(message) => Status { code: StatusCode::NotFound, message },
        QueryError::InvalidArgument(message) => Status {
            code: StatusCode::InvalidArgument,
            message,
        },
        QueryError::Query(message) => Status { code: StatusCode::InvalidQuery, message },
        QueryError::Unclassified(message) => Status { code: StatusCode::Unknown, message },
    }
}

/// Both errors are of one kind.
pub open spec fn same_kind(left: QueryError, right: QueryError) -> bool {
    match left {
        QueryError::NotFound(_) => right is NotFound,
        QueryError::InvalidArgument(_) => right is InvalidArgument,
        QueryError::Query(_) => right is Query,
        QueryError::Unclassified(_) => right is Unclassified,
    }
}

/// Errors of two kinds never get one status code, and errors of one kind
/// always do: a caller tells the kinds apart by the code alone. No error of a
/// query gets a code that the service keeps for failures of its own.
pub proof fn lemma_status_code_tells_kind(left: QueryError, right: QueryError)
    ensures
        same_kind(left, right) <==> status_of(left).code == status_of(right).code,
        status_of(left).code != StatusCode::Internal,
        status_of(left).code != StatusCode::Unavailable,
        status_of(left).code != StatusCode::Unimplemented,
{
}

/// The status of a failure of the server while it served a query, given the
/// failure's text.
pub fn error_into_status(error: &str) -> (status: Status)
    ensures
        status@ == internal_status(error@),
{
    Status { code: StatusCode::Internal, message: String::from_str("query: ").concat(error) }
}

/// The answer of an endpoint that is not supported: always the same status.
pub fn respond_with_unimplemented<RS>() -> (response: Result<RS, Status>)
    ensures
        response is Err,
        response->Err_0@ == (StatusView {
            code: StatusCode::Unimplemented,
            message: unimplemented_text(),
        }),
{
    Err(
        Status {
            code: StatusCode::Unimplemented,
            message: String::from_str("the endpoint is not supported"),
        },
    )
}

/// What a caller sees of the outcome of a query method: the data of a valid
/// outcome, the status of the first error of an invalid one, and an internal
/// status where the method itself failed or a valid outcome holds no data.
pub open spec fn answered<RS>(outcome: Result<QueryValidationResult<RS>, String>) -> Result<
    RS,
    StatusView,
> {
    match outcome {
        Err(error) => Err(internal_status(error@)),
        Ok(result) => if result.errors@.len() == 0 {
            match result.data {
                Some(data) => Ok(data),
                None => Err(internal_status(missing_data_text())),
            }
        } else {
            Err(status_of(result.errors@[0]))
        },
    }
}

/// The view of an answer of the read path.
pub open spec fn answer_view<RS>(answer: Result<RS, Status>) -> Result<RS, StatusView> {
    match answer {
        Ok(data) => Ok(data),
        Err(status) => Err(status@),
    }
}

/// What a caller sees of the outcome of a query method, see [`answered`].
pub fn answer_query<RS>(outcome: Result<QueryValidationResult<RS>, String>) -> (answer: Result<
    RS,
    Status,
>)
    ensures
        answer_view(answer) == answered(outcome),
{
    match outcome {
        Err(error) => Err(error_into_status(error.as_str())),
        Ok(result) => {
            let mut result = result;
            if result.is_valid() {
                match result.data {
                    Some(data) => Ok(data),
                    None => Err(error_into_status("valid query result holds no data")),
                }
            } else {
                let error = result.errors.swap_remove(0);
                Err(query_error_into_status(error))
            }
        },
    }
}

/// The endpoints of the read path.
#[derive(Clone, Copy, PartialEq, Eq, Debug, Structural)]
pub enum Endpoint {
    BroadcastStateTransition,
    GetIdentity,
    GetIdentities,
    GetIdentityKeys,
    GetIdentityNonce,
    GetIdentityContractNonce,
    GetIdentityBalance,
    GetIdentityBalanceAndRevision,
    GetProofs,
    GetDataContract,
    GetDataContractHistory,
    GetDataContracts,
    GetDocuments,
    GetIdentitiesByPublicKeyHashes,
    GetIdentityByPublicKeyHash,
    WaitForStateTransitionResult,
    GetConsensusParams,
    GetProtocolVersionUpgradeState,
    GetProtocolVersionUpgradeVoteStatus,
    GetEpochsInfo,
}

impl Endpoint {
    /// The endpoint is served. The others answer that they are not supported.
    pub open spec fn supported(self) -> bool {
        !(self is BroadcastStateTransition || self is WaitForStateTransitionResult
            || self is GetConsensusParams)
    }

    /// Whether the endpoint is served.
    pub fn is_supported(&self) -> (supported: bool)
        ensures
            supported == self.supported(),
    {
        match self {
            Endpoint::BroadcastStateTransition => false,
            Endpoint::WaitForStateTransitionResult => false,
            Endpoint::GetConsensusParams => false,
            _ => true,
        }
    }

    /// The name of the endpoint.
    pub open spec fn name_of(self) -> Seq<char> {
        match self {
            Endpoint::BroadcastStateTransition => "broadcast_state_transition"@,
            Endpoint::GetIdentity => "get_identity"@,
            Endpoint::GetIdentities => "get_identities"@,
            Endpoint::GetIdentityKeys => "get_identity_keys"@,
            Endpoint::GetIdentityNonce => "get_identity_nonce"@,
            Endpoint::GetIdentityContractNonce => "get_identity_contract_nonce"@,
            Endpoint::GetIdentityBalance => "get_identity_balance"@,
            Endpoint::GetIdentityBalanceAndRevision => "get_identity_balance_and_revision"@,
            Endpoint::GetProofs => "get_proofs"@,
            Endpoint::GetDataContract => "get_data_contract"@,
            Endpoint::GetDataContractHistory => "get_data_contract_history"@,
            Endpoint::GetDataContracts => "get_data_contracts"@,
            Endpoint::GetDocuments => "get_documents"@,
            Endpoint::GetIdentitiesByPublicKeyHashes => "get_identities_by_public_key_hashes"@,
            Endpoint::GetIdentityByPublicKeyHash => "get_identity_by_public_key_hash"@,
            Endpoint::WaitForStateTransitionResult => "wait_for_state_transition_result"@,
            Endpoint::GetConsensusParams => "get_consensus_params"@,
            Endpoint::GetProtocolVersionUpgradeState => "get_protocol_version_upgrade_state"@,
            Endpoint::GetProtocolVersionUpgradeVoteStatus => "get_protocol_version_upgrade_vote_status"@,
            Endpoint::GetEpochsInfo => "get_epochs_info"@,
        }
    }

    /// The name of the endpoint.
    pub fn name(&self) -> (name: &'static str)
        ensures
            name@ == self.name_of(),
    {
        match self {
            Endpoint::BroadcastStateTransition => "broadcast_state_transition",
            Endpoint::GetIdentity => "get_identity",
            Endpoint::GetIdentities => "get_identities",
            Endpoint::GetIdentityKeys => "get_identity_keys",
            Endpoint::GetIdentityNonce => "get_identity_nonce",
            Endpoint::GetIdentityContractNonce => "get_identity_contract_nonce",
            Endpoint::GetIdentityBalance => "get_identity_balance",
            Endpoint::GetIdentityBalanceAndRevision => "get_identity_balance_and_revision",
            Endpoint::GetProofs => "get_proofs",
            Endpoint::GetDataContract => "get_data_contract",
            Endpoint::GetDataContractHistory => "get_data_contract_history",
            Endpoint::GetDataContracts => "get_data_contracts",
            Endpoint::GetDocuments => "get_documents",
            Endpoint::GetIdentitiesByPublicKeyHashes => "get_identities_by_public_key_hashes",
            Endpoint::GetIdentityByPublicKeyHash => "get_identity_by_public_key_hash",
            Endpoint::WaitForStateTransitionResult => "wait_for_state_transition_result",
            Endpoint::GetConsensusParams => "get_consensus_params",
            Endpoint::GetProtocolVersionUpgradeState => "get_protocol_version_upgrade_state",
            Endpoint::GetProtocolVersionUpgradeVoteStatus => "get_protocol_version_upgrade_vote_status",
            Endpoint::GetEpochsInfo => "get_epochs_info",
        }
    }
}

/// Service to handle platform queries
pub struct QueryService<P> {
    platform: P,
}

impl<P> QueryService<P> {
    /// The platform that the service queries.
    pub closed spec fn platform_of(&self) -> P {
        self.platform
    }

    /// Creates new QueryService
    pub fn new(platform: P) -> (service: Self)
        ensures
            service.platform_of() == platform,
    {
        Self { platform }
    }

    /// The platform that the service queries.
    pub fn platform(&self) -> (platform: &P)
        ensures
            *platform == self.platform_of(),
    {
        &self.platform
    }

    /// Serves one query. Before the platform is initialized, when no protocol
    /// version is current, the query is unavailable and the method is not
    /// called. Else the method is called once, with the platform, the request
    /// and the current version, and the caller sees of its outcome what
    /// [`answered`] says.
    pub fn handle_blocking_query<RQ, RS, F>(
        &self,
        request: RQ,
        query_method: F,
        current_version: Option<ProtocolVersion>,
    ) -> (response: Result<RS, Status>) where
        F: FnOnce(&P, RQ, ProtocolVersion) -> Result<QueryValidationResult<RS>, String>,

        requires
            current_version matches Some(version) ==> call_requires(
                query_method,
                (&self.platform_of(), request, version),
            ),
        ensures
            match current_version {
                None => response is Err && response->Err_0@ == (StatusView {
                    code: StatusCode::Unavailable,
                    message: uninitialized_text(),
                }),
                Some(version) => exists|outcome: Result<QueryValidationResult<RS>, String>|
                    call_ensures(query_method, (&self.platform_of(), request, version), outcome)
                        && answer_view(response) == answered(outcome),
            },
    {
        let Some(platform_version) = current_version else {
            return Err(
                Status {
                    code: StatusCode::Unavailable,
                    message: String::from_str("platform is not initialized"),
                },
            );
        };
        let outcome = query_method(&self.platform, request, platform_version);
        let ghost returned = outcome;
        let response = answer_query(outcome);
        assert(call_ensures(
            query_method,
            (&self.platform_of(), request, platform_version),
            returned,
        ) && answer_view(response) == answered(returned));
        response
    }
}

impl<P> QueryService<P> {
    /// Serves a request to an endpoint: one that is not supported answers so,
    /// and the method is not called; any other is served as
    /// [`QueryService::handle_blocking_query`] says.
    pub fn serve<RQ, RS, F>(
        &self,
        endpoint: Endpoint,
        request: RQ,
        query_method: F,
        current_version: Option<ProtocolVersion>,
    ) -> (response: Result<RS, Status>) where
        F: FnOnce(&P, RQ, ProtocolVersion) -> Result<QueryValidationResult<RS>, String>,

        requires
            endpoint.supported() ==> (current_version matches Some(version) ==> call_requires(
                query_method,
                (&self.platform_of(), request, version),
            )),
        ensures
            !endpoint.supported() ==> response is Err && response->Err_0@ == (StatusView {
                code: StatusCode::Unimplemented,
                message: unimplemented_text(),
            }),
            endpoint.supported() ==> match current_version {
                None => response is Err && response->Err_0@ == (StatusView {
                    code: StatusCode::Unavailable,
                    message: uninitialized_text(),
                }),
                Some(version) => exists|outcome: Result<QueryValidationResult<RS>, String>|
                    call_ensures(query_method, (&self.platform_of(), request, version), outcome)
                        && answer_view(response) == answered(outcome),
            },
    {
        if endpoint.is_supported() {
            self.handle_blocking_query(request, query_method, current_version)
        } else {
            respond_with_unimplemented()
        }
    }
}

/// Where and when the state that a query read was committed.
#[derive(Clone, Copy, PartialEq, Eq, Debug, Structural)]
pub struct ResponseMetadata {
    pub height: u64,
    pub core_chain_locked_height: u32,
    pub epoch: u32,
    pub time_ms: u64,
    pub protocol_version: ProtocolVersion,
}

/// What a query of an identity's balance found.
#[derive(PartialEq, Eq, Debug)]
pub enum BalanceResult {
    /// The balance of the identity.
    Balance(u64),
    /// A proof of the balance, or of the identity's absence.
    Proof(Vec<u8>),
}

/// The answer to a query of an identity's balance.
#[derive(PartialEq, Eq, Debug)]
pub struct GetIdentityBalanceResponseV0 {
    pub result: Option<BalanceResult>,
    pub metadata: Option<ResponseMetadata>,
}

/// The text of the error for an identifier that does not have 32 bytes.
pub open spec fn invalid_identifier_text() -> Seq<char> {
    "id must be a valid identifier (32 bytes long)"@
}

/// The text of the error for an identity that does not exist.
pub open spec fn no_identity_text() -> Seq<char> {
    "No Identity found"@
}

/// The outcome holds exactly one error, of the given kind and text, and no
/// data.
pub open spec fn fails_with<T>(
    result: QueryValidationResult<T>,
    not_found: bool,
    text: Seq<char>,
) -> bool {
    &&& result.data is None
    &&& result.errors@.len() == 1
    &&& if not_found {
        result.errors@[0] matches QueryError::NotFound(message) && message@ == text
    } else {
        result.errors@[0] matches QueryError::InvalidArgument(message) && message@ == text
    }
}

/// Queries the balance of the identity `id`.
///
/// An `id` that does not have 32 bytes is an invalid argument, and nothing is
/// read. With `prove`, `prove_identity_balance` is called once: its proof is
/// the answer, and its error is the outcome's error. Without, the balance is
/// fetched once with `fetch_identity_balance`: a failure of the fetch is the
/// failure of the query, an identity that does not exist is not found, and the
/// balance of one that does is the answer. Every answer carries `metadata`.
pub fn query_balance_v0<E, PF, FF>(
    id: Vec<u8>,
    prove: bool,
    metadata: ResponseMetadata,
    prove_identity_balance: PF,
    fetch_identity_balance: FF,
) -> (outcome: Result<QueryValidationResult<GetIdentityBalanceResponseV0>, E>) where
    PF: FnOnce([u8; 32]) -> Result<Vec<u8>, QueryError>,
    FF: FnOnce([u8; 32]) -> Result<Option<u64>, E>,

    requires
        forall|identity: [u8; 32]|
            prove && identity@ == id@ ==> call_requires(prove_identity_balance, (identity,)),
        forall|identity: [u8; 32]|
            !prove && identity@ == id@ ==> call_requires(fetch_identity_balance, (identity,)),
    ensures
        id@.len() != 32 ==> outcome is Ok && fails_with(
            outcome->Ok_0,
            false,
            invalid_identifier_text(),
        ),
        id@.len() == 32 && prove ==> exists|identity: [u8; 32], proved: Result<Vec<u8>, QueryError>|
            identity@ == id@ && call_ensures(prove_identity_balance, (identity,), proved) && (
            match proved {
                Ok(proof) => outcome is Ok && outcome->Ok_0.errors@.len() == 0
                    && outcome->Ok_0.data == Some(
                    GetIdentityBalanceResponseV0 {
                        result: Some(BalanceResult::Proof(proof)),
                        metadata: Some(metadata),
                    },
                ),
                Err(error) => outcome is Ok && outcome->Ok_0.data is None
                    && outcome->Ok_0.errors@ == seq![error],
            }),
        id@.len() == 32 && !prove ==> exists|identity: [u8; 32], fetched: Result<Option<u64>, E>|
            identity@ == id@ && call_ensures(fetch_identity_balance, (identity,), fetched) && (
            match fetched {
                Ok(Some(balance)) => outcome is Ok && outcome->Ok_0.errors@.len() == 0
                    && outcome->Ok_0.data == Some(
                    GetIdentityBalanceResponseV0 {
                        result: Some(BalanceResult::Balance(balance)),
                        metadata: Some(metadata),
                    },
                ),
                Ok(None) => outcome is Ok && fails_with(outcome->Ok_0, true, no_identity_text()),
                Err(error) => outcome == Err::<
                    QueryValidationResult<GetIdentityBalanceResponseV0>,
                    E,
                >(error),
            }),
{
    let Some(identity_id) = hash_from_bytes(id.as_slice()) else {
        return Ok(
            ValidationResult::new_with_error(
                QueryError::InvalidArgument(
                    String::from_str("id must be a valid identifier (32 bytes long)"),
                ),
            ),
        );
    };

    let response = if prove {
        let proved = prove_identity_balance(identity_id);
        let ghost returned = proved;
        assert(identity_id@ == id@ && call_ensures(
            prove_identity_balance,
            (identity_id,),
            returned,
        ));
        let proof = match proved {
            Ok(proof) => proof,
            Err(error) => {
                return Ok(ValidationResult::new_with_error(error));
            },
        };
        GetIdentityBalanceResponseV0 {
            result: Some(BalanceResult::Proof(proof)),
            metadata: Some(metadata),
        }
    } else {
        let fetched = fetch_identity_balance(identity_id);
        let ghost returned = fetched;
        assert(identity_id@ == id@ && call_ensures(
            fetch_identity_balance,
            (identity_id,),
            returned,
        ));
        let maybe_balance = match fetched {
            Ok(maybe_balance) => maybe_balance,
            Err(error) => {
                return Err(error);
            },
        };
        let Some(balance) = maybe_balance else {
            return Ok(
                ValidationResult::new_with_error(
                    QueryError::NotFound(String::from_str("No Identity found")),
                ),
            );
        };
        GetIdentityBalanceResponseV0 {
            result: Some(BalanceResult::Balance(balance)),
            metadata: Some(metadata),
        }
    };

    Ok(ValidationResult::new_with_data(response))
}

} // verus!
