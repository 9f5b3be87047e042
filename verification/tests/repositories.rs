use treasury::model::institution::InstitutionFilter;
use treasury::model::account::AccountId;
use treasury::model::asset::AssetId;
use treasury::model::transaction::{Transaction, TransactionFilter, TransactionId, TransactionUpdate};
use treasury::model::user::UserId;
use treasury::model::{Filter, Timestamp};
use treasury::resource::institution_repository::InstitutionRepository;
use treasury::resource::transaction_repository::TransactionRepository;
use treasury::resource::{page, BindValue, Fetch, GetListRepository, QueryPart, SqlQuery, MAX_LIMIT};

fn sql(s: &str) -> QueryPart {
    QueryPart::Sql(s.to_owned())
}

fn bind(v: BindValue) -> QueryPart {
    QueryPart::Bind(v)
}

#[test]
fn paging_is_clamped() {
    assert_eq!(page(-5, None), (0, MAX_LIMIT));
    assert_eq!(page(7, Some(0)), (7, 1));
    assert_eq!(page(7, Some(1000)), (7, 100));
    assert_eq!(page(7, Some(20)), (7, 20));
}

#[test]
fn an_empty_filter_adds_no_where_clause() {
    let mut q = SqlQuery::new("SELECT * FROM institution ");
    InstitutionFilter::default().push(&mut q);
    assert_eq!(q.parts, vec![sql("SELECT * FROM institution ")]);
}

#[test]
fn filter_conditions_are_joined_with_and() {
    let mut f = TransactionFilter::default();
    f.description = Some("rent".to_owned());
    f.quantity = Some(3);
    f.posted_before = Some(Timestamp(99));
    let mut q = SqlQuery::empty();
    f.push(&mut q);
    assert_eq!(
        q.parts,
        vec![
            sql("WHERE "),
            sql("description ILIKE %"),
            bind(BindValue::Text("rent".to_owned())),
            sql("%"),
            sql(" AND "),
            sql("quantity = "),
            bind(BindValue::Int(3)),
            sql(" AND "),
            sql("posted_at < "),
            bind(BindValue::Timestamp(Timestamp(99))),
        ]
    );
}

#[test]
fn institution_list_query() {
    let mut f = InstitutionFilter::default();
    f.name = Some("Toss Bank".to_owned());
    let s = InstitutionRepository.get_list(-3, Some(500), f);
    assert_eq!(s.fetch, Fetch::All);
    assert!(!s.commit);
    assert_eq!(
        s.query.parts,
        vec![
            sql("SELECT * FROM institution "),
            sql("WHERE "),
            sql("name = "),
            bind(BindValue::Text("Toss Bank".to_owned())),
            sql(" OFFSET "),
            bind(BindValue::Int(0)),
            sql(" LIMIT "),
            bind(BindValue::Int(100)),
        ]
    );
}

#[test]
fn transactions_of_a_user() {
    let s = TransactionRepository.get_list_with_user_id(0, None, UserId(4), TransactionFilter::default());
    assert_eq!(
        s.query.parts,
        vec![
            sql("SELECT t.* FROM \"transaction\" t WHERE t.account_id IN (SELECT id FROM account WHERE user_id ="),
            bind(BindValue::Uuid(4)),
            sql(")"),
            sql(" OFFSET "),
            bind(BindValue::Int(0)),
            sql(" LIMIT "),
            bind(BindValue::Int(100)),
        ]
    );
}

#[test]
fn a_transaction_update_keeps_its_identity() {
    let mut t = Transaction {
        id: TransactionId(3),
        created_at: Timestamp(1),
        updated_at: Timestamp(2),
        posted_at: Timestamp(3),
        account_id: AccountId(4),
        asset_id: AssetId(5),
        description: Some("old".to_owned()),
        quantity: 6,
    };
    t.update(TransactionUpdate { asset_id: Some(AssetId(9)), description: None, posted_at: None, quantity: Some(-1) });
    assert_eq!(t.id, TransactionId(3));
    assert_eq!(t.account_id, AccountId(4));
    assert_eq!(t.asset_id, AssetId(9));
    assert_eq!(t.description, Some("old".to_owned()));
    assert_eq!(t.quantity, -1);
}
