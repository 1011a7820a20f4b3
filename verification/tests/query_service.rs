use consensus_core::query::{
    answer_query, error_into_status, query_balance_v0, query_error_into_status,
    respond_with_unimplemented, BalanceResult, Endpoint, GetIdentityBalanceResponseV0,
    QueryError, QueryService, QueryValidationResult, ResponseMetadata, Status, StatusCode,
    ValidationResult,
};
use std::cell::Cell;

fn metadata() -> ResponseMetadata {
    ResponseMetadata {
        height: 12,
        core_chain_locked_height: 900,
        epoch: 3,
        time_ms: 1_700_000_000_000,
        protocol_version: 1,
    }
}

/// A platform without identities: no balance is found, and a proof is a proof
/// of absence.
fn query_empty_platform(
    id: Vec<u8>,
    prove: bool,
) -> Result<QueryValidationResult<GetIdentityBalanceResponseV0>, String> {
    query_balance_v0(
        id,
        prove,
        metadata(),
        |_identity: [u8; 32]| Ok(vec![0xAB, 0xCD]),
        |_identity: [u8; 32]| Ok(None),
    )
}

fn assert_invalid_identifier<T>(result: QueryValidationResult<T>) {
    assert!(matches!(
        result.errors.as_slice(),
        [QueryError::InvalidArgument(msg)] if msg.contains("id must be a valid identifier (32 bytes long)")
    ));
}

#[test]
fn test_invalid_identity_id() {
    let result = query_empty_platform(vec![0; 8], false).expect("should query balance");

    assert_invalid_identifier(result);
}

#[test]
fn test_identity_not_found() {
    let id = vec![0; 32];

    let result = query_empty_platform(id.clone(), false).expect("expected query to succeed");

    assert!(matches!(
        result.errors.as_slice(),
        [QueryError::NotFound(_)]
    ));
}

#[test]
fn test_identity_balance_absence_proof() {
    let id = vec![0; 32];

    let result = query_empty_platform(id.clone(), true).expect("should query balance");

    assert!(matches!(
        result.data,
        Some(GetIdentityBalanceResponseV0 {
            result: Some(BalanceResult::Proof(_)),
            metadata: Some(_)
        })
    ));
}

#[test]
fn balance_of_an_existing_identity() {
    let mut id = vec![0u8; 32];
    id[31] = 9;
    let seen = Cell::new([0u8; 32]);
    let outcome: Result<QueryValidationResult<GetIdentityBalanceResponseV0>, String> =
        query_balance_v0(
            id.clone(),
            false,
            metadata(),
            |_identity: [u8; 32]| panic!("no proof was asked for"),
            |identity: [u8; 32]| {
                seen.set(identity);
                Ok(Some(4_200))
            },
        );
    let result = outcome.expect("should query balance");
    assert!(result.is_valid());
    assert_eq!(
        result.data,
        Some(GetIdentityBalanceResponseV0 {
            result: Some(BalanceResult::Balance(4_200)),
            metadata: Some(metadata()),
        })
    );
    assert_eq!(seen.get().to_vec(), id);
}

#[test]
fn balance_proof_holds_the_proof_and_does_not_fetch() {
    let outcome: Result<QueryValidationResult<GetIdentityBalanceResponseV0>, String> =
        query_balance_v0(
            vec![7; 32],
            true,
            metadata(),
            |identity: [u8; 32]| Ok(identity[..2].to_vec()),
            |_identity: [u8; 32]| panic!("no balance was asked for"),
        );
    let result = outcome.expect("should query balance");
    assert_eq!(result.errors, Vec::new());
    assert_eq!(
        result.data,
        Some(GetIdentityBalanceResponseV0 {
            result: Some(BalanceResult::Proof(vec![7, 7])),
            metadata: Some(metadata()),
        })
    );
}

#[test]
fn balance_proof_error_is_a_validation_error() {
    let outcome: Result<QueryValidationResult<GetIdentityBalanceResponseV0>, String> =
        query_balance_v0(
            vec![7; 32],
            true,
            metadata(),
            |_identity: [u8; 32]| Err(QueryError::Unclassified("proof failed".to_string())),
            |_identity: [u8; 32]| Ok(Some(1)),
        );
    let result = outcome.expect("should query balance");
    assert_eq!(result.data, None);
    assert_eq!(result.errors, vec![QueryError::Unclassified("proof failed".to_string())]);
}

#[test]
fn balance_fetch_failure_fails_the_query() {
    let outcome: Result<QueryValidationResult<GetIdentityBalanceResponseV0>, String> =
        query_balance_v0(
            vec![7; 32],
            false,
            metadata(),
            |_identity: [u8; 32]| Ok(Vec::new()),
            |_identity: [u8; 32]| Err("storage is down".to_string()),
        );
    assert_eq!(outcome, Err("storage is down".to_string()));
}

#[test]
fn invalid_identifier_reads_nothing() {
    for length in [0usize, 31, 33] {
        let outcome: Result<QueryValidationResult<GetIdentityBalanceResponseV0>, String> =
            query_balance_v0(
                vec![1; length],
                length % 2 == 1,
                metadata(),
                |_identity: [u8; 32]| panic!("nothing is read"),
                |_identity: [u8; 32]| panic!("nothing is read"),
            );
        let result = outcome.expect("should query balance");
        assert_eq!(result.data, None);
        assert_eq!(
            result.errors,
            vec![QueryError::InvalidArgument(
                "id must be a valid identifier (32 bytes long)".to_string()
            )]
        );
    }
}

#[test]
fn query_errors_map_to_statuses() {
    assert_eq!(
        query_error_into_status(QueryError::NotFound("No Identity found".to_string())),
        Status { code: StatusCode::NotFound, message: "No Identity found".to_string() }
    );
    assert_eq!(
        query_error_into_status(QueryError::InvalidArgument("bad id".to_string())),
        Status { code: StatusCode::InvalidArgument, message: "bad id".to_string() }
    );
    assert_eq!(
        query_error_into_status(QueryError::Query("where clause is malformed".to_string())),
        Status { code: StatusCode::InvalidQuery, message: "where clause is malformed".to_string() }
    );
    assert_eq!(
        query_error_into_status(QueryError::Unclassified("proof error".to_string())),
        Status { code: StatusCode::Unknown, message: "proof error".to_string() }
    );
}

#[test]
fn server_errors_are_internal() {
    assert_eq!(
        error_into_status("storage: corrupted"),
        Status { code: StatusCode::Internal, message: "query: storage: corrupted".to_string() }
    );
    assert_eq!(
        error_into_status(""),
        Status { code: StatusCode::Internal, message: "query: ".to_string() }
    );
}

#[test]
fn unsupported_endpoints_are_unimplemented() {
    let response: Result<u8, Status> = respond_with_unimplemented();
    assert_eq!(
        response,
        Err(Status {
            code: StatusCode::Unimplemented,
            message: "the endpoint is not supported".to_string()
        })
    );
}

#[test]
fn answers_of_query_outcomes() {
    let data: Result<u32, Status> = answer_query(Ok(ValidationResult::new_with_data(5)));
    assert_eq!(data, Ok(5));

    let failed: Result<u32, Status> = answer_query(Err("drive: boom".to_string()));
    assert_eq!(
        failed,
        Err(Status { code: StatusCode::Internal, message: "query: drive: boom".to_string() })
    );

    let first_of_two: Result<u32, Status> = answer_query(Ok(ValidationResult {
        errors: vec![
            QueryError::NotFound("first".to_string()),
            QueryError::InvalidArgument("second".to_string()),
        ],
        data: Some(1),
    }));
    assert_eq!(
        first_of_two,
        Err(Status { code: StatusCode::NotFound, message: "first".to_string() })
    );

    let hollow: Result<u32, Status> =
        answer_query(Ok(ValidationResult { errors: Vec::new(), data: None }));
    assert_eq!(
        hollow,
        Err(Status {
            code: StatusCode::Internal,
            message: "query: valid query result holds no data".to_string()
        })
    );
}

#[test]
fn validation_result_constructors() {
    let valid: ValidationResult<u8, QueryError> = ValidationResult::new_with_data(3);
    assert!(valid.is_valid());
    assert_eq!(valid.data, Some(3));
    let invalid: ValidationResult<u8, QueryError> =
        ValidationResult::new_with_error(QueryError::NotFound("x".to_string()));
    assert!(!invalid.is_valid());
    assert_eq!(invalid.data, None);
    assert_eq!(invalid.errors, vec![QueryError::NotFound("x".to_string())]);
}

#[test]
fn service_is_unavailable_before_initialization() {
    let service = QueryService::new("platform".to_string());
    let calls = Cell::new(0u32);
    let response: Result<u64, Status> = service.handle_blocking_query(
        7u64,
        |_platform: &String, request: u64, _version: u32| {
            calls.set(calls.get() + 1);
            Ok(ValidationResult::new_with_data(request))
        },
        None,
    );
    assert_eq!(
        response,
        Err(Status {
            code: StatusCode::Unavailable,
            message: "platform is not initialized".to_string()
        })
    );
    assert_eq!(calls.get(), 0);
}

#[test]
fn service_hands_platform_request_and_version_to_the_method() {
    let service = QueryService::new("platform".to_string());
    assert_eq!(service.platform(), "platform");
    let response: Result<String, Status> = service.handle_blocking_query(
        7u64,
        |platform: &String, request: u64, version: u32| {
            Ok(ValidationResult::new_with_data(format!("{platform}/{request}/{version}")))
        },
        Some(3),
    );
    assert_eq!(response, Ok("platform/7/3".to_string()));

    let not_found: Result<String, Status> = service.handle_blocking_query(
        7u64,
        |_platform: &String, _request: u64, _version: u32| {
            Ok(ValidationResult::new_with_error(QueryError::NotFound("nothing".to_string())))
        },
        Some(3),
    );
    assert_eq!(
        not_found,
        Err(Status { code: StatusCode::NotFound, message: "nothing".to_string() })
    );

    let failed: Result<String, Status> = service.handle_blocking_query(
        7u64,
        |_platform: &String, _request: u64, _version: u32| Err("boom".to_string()),
        Some(3),
    );
    assert_eq!(
        failed,
        Err(Status { code: StatusCode::Internal, message: "query: boom".to_string() })
    );
}

const ENDPOINTS: [(Endpoint, &str, bool); 20] = [
    (Endpoint::BroadcastStateTransition, "broadcast_state_transition", false),
    (Endpoint::GetIdentity, "get_identity", true),
    (Endpoint::GetIdentities, "get_identities", true),
    (Endpoint::GetIdentityKeys, "get_identity_keys", true),
    (Endpoint::GetIdentityNonce, "get_identity_nonce", true),
    (Endpoint::GetIdentityContractNonce, "get_identity_contract_nonce", true),
    (Endpoint::GetIdentityBalance, "get_identity_balance", true),
    (Endpoint::GetIdentityBalanceAndRevision, "get_identity_balance_and_revision", true),
    (Endpoint::GetProofs, "get_proofs", true),
    (Endpoint::GetDataContract, "get_data_contract", true),
    (Endpoint::GetDataContractHistory, "get_data_contract_history", true),
    (Endpoint::GetDataContracts, "get_data_contracts", true),
    (Endpoint::GetDocuments, "get_documents", true),
    (Endpoint::GetIdentitiesByPublicKeyHashes, "get_identities_by_public_key_hashes", true),
    (Endpoint::GetIdentityByPublicKeyHash, "get_identity_by_public_key_hash", true),
    (Endpoint::WaitForStateTransitionResult, "wait_for_state_transition_result", false),
    (Endpoint::GetConsensusParams, "get_consensus_params", false),
    (Endpoint::GetProtocolVersionUpgradeState, "get_protocol_version_upgrade_state", true),
    (
        Endpoint::GetProtocolVersionUpgradeVoteStatus,
        "get_protocol_version_upgrade_vote_status",
        true,
    ),
    (Endpoint::GetEpochsInfo, "get_epochs_info", true),
];

#[test]
fn endpoints_have_names_and_support() {
    for (endpoint, name, supported) in ENDPOINTS {
        assert_eq!(endpoint.name(), name);
        assert_eq!(endpoint.is_supported(), supported);
    }
}

#[test]
fn serve_answers_unsupported_endpoints_without_a_query() {
    let service = QueryService::new(1u8);
    for (endpoint, _, supported) in ENDPOINTS {
        let calls = Cell::new(0u32);
        let response: Result<u64, Status> = service.serve(
            endpoint,
            5u64,
            |_platform: &u8, request: u64, version: u32| {
                calls.set(calls.get() + 1);
                Ok(ValidationResult::new_with_data(request + u64::from(version)))
            },
            Some(2),
        );
        if supported {
            assert_eq!(response, Ok(7));
            assert_eq!(calls.get(), 1);
        } else {
            assert_eq!(
                response,
                Err(Status {
                    code: StatusCode::Unimplemented,
                    message: "the endpoint is not supported".to_string()
                })
            );
            assert_eq!(calls.get(), 0);
        }
    }
}

#[test]
fn serve_is_unavailable_before_initialization() {
    let service = QueryService::new(1u8);
    let response: Result<u64, Status> = service.serve(
        Endpoint::GetIdentity,
        5u64,
        |_platform: &u8, request: u64, _version: u32| Ok(ValidationResult::new_with_data(request)),
        None,
    );
    assert_eq!(
        response,
        Err(Status {
            code: StatusCode::Unavailable,
            message: "platform is not initialized".to_string()
        })
    );
}

#[test]
fn added_errors_come_behind_the_earlier_ones() {
    let mut result: ValidationResult<u8, QueryError> =
        ValidationResult::new_with_error(QueryError::NotFound("a".to_string()));
    result.add_errors(vec![
        QueryError::Query("b".to_string()),
        QueryError::InvalidArgument("c".to_string()),
    ]);
    result.add_errors(Vec::new());
    assert_eq!(
        result.errors,
        vec![
            QueryError::NotFound("a".to_string()),
            QueryError::Query("b".to_string()),
            QueryError::InvalidArgument("c".to_string()),
        ]
    );
    assert_eq!(result.data, None);
}

#[test]
fn each_kind_of_query_error_has_its_own_code() {
    let text = "same text".to_string();
    let codes = [
        query_error_into_status(QueryError::NotFound(text.clone())).code,
        query_error_into_status(QueryError::InvalidArgument(text.clone())).code,
        query_error_into_status(QueryError::Query(text.clone())).code,
        query_error_into_status(QueryError::Unclassified(text.clone())).code,
    ];
    assert_eq!(
        codes,
        [
            StatusCode::NotFound,
            StatusCode::InvalidArgument,
            StatusCode::InvalidQuery,
            StatusCode::Unknown,
        ]
    );
    for (i, left) in codes.iter().enumerate() {
        for (j, right) in codes.iter().enumerate() {
            assert_eq!(left == right, i == j);
        }
    }
    assert_ne!(
        query_error_into_status(QueryError::Query(text.clone())),
        query_error_into_status(QueryError::InvalidArgument(text))
    );
}

#[test]
fn malformed_query_is_answered_as_such() {
    let answer: Result<u32, Status> = answer_query(Ok(ValidationResult {
        errors: vec![QueryError::Query("order by needs an index".to_string())],
        data: None,
    }));
    assert_eq!(
        answer,
        Err(Status {
            code: StatusCode::InvalidQuery,
            message: "order by needs an index".to_string()
        })
    );
}
