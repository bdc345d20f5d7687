use cumulus_test_service::config::{Monitoring, PoolLimit, TransactionPoolOptions};
use cumulus_test_service::{
    genesis_plan, new_partial, node_config_on_port, start_node_impl, Configuration, FailureKind, GenesisStep, IsCollator,
    Keyring, Outcome, ParaId, PartialStep, Plan, RelayChainError, Role, ServiceError, StartStep,
    Step,
};

fn config(role: Role) -> Configuration<()> {
    let mut config = node_config_on_port::<(), String>(
        Ok("/tmp/node".to_string()),
        (),
        Keyring::Alice,
        vec![],
        false,
        ParaId(7),
        false,
        1,
    )
    .unwrap();
    config.role = role;
    config
}

fn start(collator_key: Option<&'static str>) -> Plan<StartStep<&'static str>> {
    match start_node_impl::<(), &'static str, String>(&config(Role::Full), collator_key, ParaId(7)) {
        Ok(plan) => plan,
        Err(_) => panic!("a full node can be started"),
    }
}

fn name(step: &StartStep<&'static str>) -> String {
    match step {
        StartStep::PrepareNodeConfig => "prepare".to_string(),
        StartStep::NewPartial => "partial".to_string(),
        StartStep::RegisterTimestampProvider => "timestamp".to_string(),
        StartStep::NewRelayChainNode { is_collator: IsCollator::Yes(key) } => {
            format!("relay chain for {}", key)
        }
        StartStep::NewRelayChainNode { is_collator: IsCollator::No } => "relay chain".to_string(),
        StartStep::NewBlockAnnounceValidator { para_id } => format!("validator {}", para_id.0),
        StartStep::BuildNetwork => "network".to_string(),
        StartStep::SpawnTasks => "tasks".to_string(),
        StartStep::StartCollator { para_id, collator_key, metrics } => {
            format!("collator {} {} {}", para_id.0, collator_key, metrics)
        }
        StartStep::StartFullNode { para_id } => format!("full node {}", para_id.0),
        StartStep::StartNetwork => "start network".to_string(),
    }
}

/// The names of the steps that are performed, where the step `failing` fails with `outcome`.
fn run(
    mut plan: Plan<StartStep<&'static str>>,
    failing: usize,
    outcome: Outcome<String>,
) -> (Vec<String>, Result<(), ServiceError<String>>, bool) {
    let mut failure = Some(outcome);
    let mut performed = Vec::new();
    let mut result = Ok(());
    while let Some(step) = plan.next_step() {
        performed.push(name(step));
        let outcome = if performed.len() == failing + 1 {
            failure.take().unwrap()
        } else {
            Outcome::Done
        };
        if let Err(error) = plan.complete_step(outcome) {
            result = Err(error);
        }
    }
    (performed, result, plan.is_complete())
}

#[test]
fn a_full_node_is_started_in_order() {
    let (performed, result, complete) = run(start(None), 99, Outcome::Done);
    assert_eq!(
        performed,
        vec![
            "prepare",
            "partial",
            "timestamp",
            "relay chain",
            "validator 7",
            "network",
            "tasks",
            "full node 7",
            "start network",
        ]
    );
    assert!(result.is_ok());
    assert!(complete);
}

#[test]
fn a_collator_is_started_in_order() {
    let (performed, result, complete) = run(start(Some("key")), 99, Outcome::Done);
    assert_eq!(
        performed,
        vec![
            "prepare",
            "partial",
            "timestamp",
            "relay chain for key",
            "validator 7",
            "network",
            "tasks",
            "collator 7 key false",
            "start network",
        ]
    );
    assert!(result.is_ok());
    assert!(complete);
}

#[test]
fn light_clients_are_refused() {
    let refused =
        start_node_impl::<(), &'static str, String>(&config(Role::Light), Some("key"), ParaId(7));
    match refused {
        Err(ServiceError::Other(text)) => assert_eq!(text, "Light client not supported!"),
        _ => panic!("a light client was started"),
    }
    let accepted =
        start_node_impl::<(), &'static str, String>(&config(Role::Authority), None, ParaId(7));
    assert!(accepted.is_ok());
}

#[test]
fn a_failure_of_the_service_stops_the_start() {
    for failing in vec![1, 5, 6, 7] {
        let (performed, result, complete) =
            run(start(Some("key")), failing, Outcome::Failed("broken".to_string()));
        assert_eq!(performed.len(), failing + 1);
        assert!(!performed.contains(&"start network".to_string()));
        match result {
            Err(ServiceError::Service(error)) => assert_eq!(error, "broken"),
            _ => panic!("the failure was lost"),
        }
        assert!(!complete);
    }
}

#[test]
fn a_failure_of_the_relay_chain_stops_the_start() {
    let failure = Outcome::RelayChainFailed(RelayChainError::Sub("broken".to_string()));
    let (performed, result, complete) = run(start(None), 3, failure);
    assert_eq!(performed, vec!["prepare", "partial", "timestamp", "relay chain"]);
    match result {
        Err(ServiceError::Service(error)) => assert_eq!(error, "broken"),
        _ => panic!("the failure was lost"),
    }
    assert!(!complete);

    let failure = Outcome::RelayChainFailed(RelayChainError::Other("no genesis".to_string()));
    let (_, result, complete) = run(start(None), 3, failure);
    match result {
        Err(ServiceError::Other(text)) => assert_eq!(text, "no genesis"),
        _ => panic!("the failure was lost"),
    }
    assert!(!complete);
}

#[test]
fn some_steps_cannot_fail() {
    let mut kinds = Vec::new();
    let mut plan = start(Some("key"));
    while let Some(step) = plan.next_step() {
        kinds.push(step.failure_kind());
        plan.complete_step(Outcome::<String>::Done).unwrap();
    }
    assert_eq!(
        kinds,
        vec![
            FailureKind::Never,
            FailureKind::Service,
            FailureKind::Never,
            FailureKind::RelayChain,
            FailureKind::Never,
            FailureKind::Service,
            FailureKind::Service,
            FailureKind::Service,
            FailureKind::Never,
        ]
    );
    let full_node: StartStep<()> = StartStep::StartFullNode { para_id: ParaId(1) };
    assert_eq!(full_node.failure_kind(), FailureKind::Service);
}

#[test]
fn the_parts_of_a_node_are_created_in_order() {
    for (role, is_authority) in
        vec![(Role::Full, false), (Role::Light, false), (Role::Authority, true)]
    {
        let mut config = config(role);
        let mut plan = new_partial(&mut config);
        assert_eq!(config.role, role);
        let mut performed = Vec::new();
        let mut kinds = Vec::new();
        while let Some(step) = plan.next_step() {
            performed.push(*step);
            kinds.push(step.failure_kind());
            plan.complete_step(Outcome::<String>::Done).unwrap();
        }
        assert_eq!(
            performed,
            vec![
                PartialStep::NewFullParts,
                PartialStep::NewTransactionPool {
                    options: TransactionPoolOptions::Default,
                    is_authority,
                    metrics: false,
                },
                PartialStep::NewImportQueue { metrics: false },
                PartialStep::Assemble,
            ]
        );
        assert_eq!(
            kinds,
            vec![
                FailureKind::Service,
                FailureKind::Never,
                FailureKind::Service,
                FailureKind::Never,
            ]
        );
        assert!(plan.is_complete());
    }
}

#[test]
fn a_part_that_fails_is_the_last() {
    let mut plan = new_partial(&mut config(Role::Full));
    assert!(plan.complete_step(Outcome::<String>::Done).is_ok());
    assert!(plan.complete_step(Outcome::<String>::Done).is_ok());
    let result = plan.complete_step(Outcome::Failed("no queue".to_string()));
    assert!(matches!(result, Err(ServiceError::Service(error)) if error == "no queue"));
    assert_eq!(plan.next_step(), None);
    assert!(!plan.is_complete());
}

#[test]
fn the_pool_is_created_as_configured() {
    let options = TransactionPoolOptions::Limited {
        ready: PoolLimit { count: 8192, total_bytes: 20 },
        future: PoolLimit { count: 512, total_bytes: 1 },
    };
    let mut config = config(Role::Authority);
    config.transaction_pool = options;
    config.prometheus_config = Monitoring::On("127.0.0.1:9615".to_string());
    let mut plan = new_partial(&mut config);
    plan.complete_step(Outcome::<String>::Done).unwrap();
    let pool = PartialStep::NewTransactionPool { options, is_authority: true, metrics: true };
    assert_eq!(plan.next_step(), Some(&pool));
    plan.complete_step(Outcome::<String>::Done).unwrap();
    assert_eq!(plan.next_step(), Some(&PartialStep::NewImportQueue { metrics: true }));
    assert_eq!(config.transaction_pool, options);
}

#[test]
fn a_watched_collator_reports() {
    let mut config = config(Role::Authority);
    config.prometheus_config = Monitoring::On("127.0.0.1:9615".to_string());
    let plan = match start_node_impl::<(), &'static str, String>(&config, Some("key"), ParaId(7)) {
        Ok(plan) => plan,
        Err(_) => panic!("an authority can be started"),
    };
    let (performed, _, _) = run(plan, 99, Outcome::Done);
    assert_eq!(performed[7], "collator 7 key true");
}

#[test]
fn the_genesis_is_updated_once() {
    let mut plan = genesis_plan(&config(Role::Full));
    let mut performed = Vec::new();
    while let Some(step) = plan.next_step() {
        performed.push(*step);
        assert_eq!(step.failure_kind(), FailureKind::Never);
        plan.complete_step(Outcome::<String>::Done).unwrap();
    }
    assert_eq!(
        performed,
        vec![
            GenesisStep::GetChainSpec { para_id: ParaId(7) },
            GenesisStep::BuildStorage,
            GenesisStep::UpdateStorage,
            GenesisStep::SetStorage,
        ]
    );
    assert!(plan.is_complete());
}
