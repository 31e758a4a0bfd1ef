use txn_workload::publish_modules::{
    GeneratorError, PublishPackageCreator, TransactionGenerator, TransactionGeneratorCreator,
};
use txn_workload::shared::new_address_pool;
use txn_workload::types::{AccountAddress, LocalAccount, TransactionFactory, TransactionPayload};

fn factory() -> PublishPackageCreator {
    let txn_factory = TransactionFactory::new(4, 100_000, 100, 30);
    let pool = new_address_pool(vec![AccountAddress::new(1), AccountAddress::new(2)]);
    PublishPackageCreator::new(7, txn_factory, pool, 55)
}

#[test]
fn one_account_three_transactions() {
    let mut creator = factory();
    let mut generator = creator.create_transaction_generator();
    let mut accounts = vec![LocalAccount::new(AccountAddress::new(1), 10)];
    let txns = generator.generate_transactions(&mut accounts, 3).unwrap();
    assert_eq!(txns.len(), 3);
    assert!(txns[0].is_publish_transaction());
    assert!(txns[1].is_use_transaction());
    assert!(txns[2].is_publish_transaction());
    for (i, t) in txns.iter().enumerate() {
        assert_eq!(t.sender, AccountAddress::new(1));
        assert_eq!(t.sequence_number, 10 + i as u64);
        assert_eq!(t.chain_id, 4);
        assert_eq!(t.max_gas_amount, 100_000);
        assert_eq!(t.expiration_secs, 30);
    }
    // The publishes carry the factory's gas price, the use the generator's.
    assert_eq!(txns[0].gas_unit_price, 100);
    assert_eq!(txns[1].gas_unit_price, 55);
    assert_eq!(txns[2].gas_unit_price, 100);
    assert_eq!(accounts[0].sequence_number, 13);
    assert_eq!(accounts[0].address, AccountAddress::new(1));
}

#[test]
fn two_accounts_two_transactions_each() {
    let mut creator = factory();
    let mut generator = creator.create_transaction_generator();
    let mut accounts = vec![
        LocalAccount::new(AccountAddress::new(1), 0),
        LocalAccount::new(AccountAddress::new(2), 5),
    ];
    let txns = generator.generate_transactions(&mut accounts, 2).unwrap();
    // Two publishes per account, no use transactions, accounts in order.
    assert_eq!(txns.len(), 4);
    for t in &txns {
        assert!(t.is_publish_transaction());
    }
    assert_eq!(txns[0].sender, AccountAddress::new(1));
    assert_eq!(txns[1].sender, AccountAddress::new(1));
    assert_eq!(txns[2].sender, AccountAddress::new(2));
    assert_eq!(txns[3].sender, AccountAddress::new(2));
    assert_eq!(txns[0].sequence_number, 0);
    assert_eq!(txns[1].sequence_number, 1);
    assert_eq!(txns[2].sequence_number, 5);
    assert_eq!(txns[3].sequence_number, 6);
    assert_eq!(accounts[0].sequence_number, 2);
    assert_eq!(accounts[1].sequence_number, 7);
}

#[test]
fn output_length_is_accounts_times_k() {
    let mut creator = factory();
    let mut generator = creator.create_transaction_generator();
    let mut accounts = vec![
        LocalAccount::new(AccountAddress::new(1), 0),
        LocalAccount::new(AccountAddress::new(2), 0),
        LocalAccount::new(AccountAddress::new(3), 0),
    ];
    let txns = generator.generate_transactions(&mut accounts, 5).unwrap();
    assert_eq!(txns.len(), 15);
    // Each account's segment: publish, three uses, publish.
    for a in 0..3 {
        let seg = &txns[a * 5..(a + 1) * 5];
        assert!(seg[0].is_publish_transaction());
        assert!(seg[1].is_use_transaction());
        assert!(seg[2].is_use_transaction());
        assert!(seg[3].is_use_transaction());
        assert!(seg[4].is_publish_transaction());
    }
    for acc in &accounts {
        assert_eq!(acc.sequence_number, 5);
    }
}

#[test]
fn fewer_than_two_transactions_is_a_contract_violation() {
    let mut creator = factory();
    let mut generator = creator.create_transaction_generator();
    let mut accounts = vec![LocalAccount::new(AccountAddress::new(1), 42)];
    let r = generator.generate_transactions(&mut accounts, 1);
    assert_eq!(r, Err(GeneratorError::ContractViolation));
    // No transaction was produced and no sequence number moved.
    assert_eq!(accounts[0].sequence_number, 42);

    let r = generator.generate_transactions(&mut accounts, 0);
    assert_eq!(r, Err(GeneratorError::ContractViolation));
    assert_eq!(accounts[0].sequence_number, 42);
}

#[test]
fn empty_batch_yields_no_transactions() {
    let mut creator = factory();
    let mut generator = creator.create_transaction_generator();
    let mut accounts: Vec<LocalAccount> = vec![];
    let txns = generator.generate_transactions(&mut accounts, 4).unwrap();
    assert!(txns.is_empty());
}

#[test]
fn minted_generators_are_independent() {
    let mut creator = factory();
    let g1 = creator.create_transaction_generator();
    let g2 = creator.create_transaction_generator();
    // Each mint carries a fresh stream nonce: the streams are never shared.
    assert_ne!(g1.stream_id, g2.stream_id);
    assert_eq!(g1.stream_id, 0);
    assert_eq!(g2.stream_id, 1);

    // And the streams differ: the same batch draws different function picks.
    let mut g1 = g1;
    let mut g2 = g2;
    let mut accounts1 = vec![LocalAccount::new(AccountAddress::new(1), 0)];
    let mut accounts2 = vec![LocalAccount::new(AccountAddress::new(1), 0)];
    let t1 = g1.generate_transactions(&mut accounts1, 4).unwrap();
    let t2 = g2.generate_transactions(&mut accounts2, 4).unwrap();
    assert_ne!(t1, t2);
}

#[test]
fn use_transactions_invoke_the_picked_package() {
    let mut creator = factory();
    let mut generator = creator.create_transaction_generator();
    let mut accounts = vec![LocalAccount::new(AccountAddress::new(9), 0)];
    let txns = generator.generate_transactions(&mut accounts, 3).unwrap();
    // The catalog holds one variant, so every pick must return it; a pick
    // that ignored its bound would show here.
    match txns[0].payload {
        TransactionPayload::Publish { package_variant } => assert_eq!(package_variant, 0),
        _ => panic!("first transaction must publish"),
    }
    match txns[1].payload {
        TransactionPayload::Use { package_variant, .. } => assert_eq!(package_variant, 0),
        _ => panic!("middle transaction must invoke"),
    }
}

#[test]
fn generator_built_by_hand_works() {
    let rng = <rand::rngs::StdRng as rand::SeedableRng>::seed_from_u64(3);
    let catalog = txn_workload::publishing::new_shared_catalog();
    let pool = new_address_pool(vec![AccountAddress::new(8)]);
    let txn_factory = TransactionFactory::new(1, 5_000, 2, 60);
    let mut generator = txn_workload::publish_modules::PublishPackageGenerator::new(
        rng, 0, catalog, txn_factory, pool, 9,
    );
    let mut accounts = vec![LocalAccount::new(AccountAddress::new(8), 0)];
    let txns = generator.generate_transactions(&mut accounts, 2).unwrap();
    assert_eq!(txns.len(), 2);
    assert!(txns[0].is_publish_transaction());
    assert!(txns[1].is_publish_transaction());
    assert_eq!(accounts[0].sequence_number, 2);
}
