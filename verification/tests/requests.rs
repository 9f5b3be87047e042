use treasury::authentication::authenticated_token::{AuthenticatedToken, Claims};
use treasury::authentication::registered_user::RegisteredUser;
use treasury::model::account::AccountId;
use treasury::model::asset::AssetId;
use treasury::model::institution::InstitutionId;
use treasury::model::user::{User, UserId};
use treasury::model::Timestamp;
use treasury::schema::{
    account, asset, datetime_of, datetime_param, datetime_text, institution, optional_datetime_param,
    optional_url_encoded_param, transaction, url_encoded_param, url_param_of, user, ParamError,
};

#[test]
fn url_encoded_parameters_are_decoded() {
    assert_eq!(url_encoded_param("Toss%20Bank").unwrap(), "Toss Bank");
    assert_eq!(url_encoded_param("a+b").unwrap(), "a+b");
    assert_eq!(url_encoded_param("%E2%82%AC").unwrap(), "€");
    assert_eq!(url_encoded_param("%FF"), Err(ParamError::UrlEncoding));
    assert_eq!(optional_url_encoded_param(None).unwrap(), None);
    assert_eq!(optional_url_encoded_param(Some("x%2Fy".to_owned())).unwrap(), Some("x/y".to_owned()));
}

#[test]
fn datetime_parameters_are_rfc3339() {
    assert_eq!(datetime_param("1970-01-01T00:00:01Z").unwrap(), Timestamp(1_000_000));
    assert_eq!(datetime_param("1970-01-01T01:00:00+01:00").unwrap(), Timestamp(0));
    assert_eq!(datetime_param("2024-02-30T00:00:00Z"), Err(ParamError::DateTime));
    assert_eq!(datetime_param("yesterday"), Err(ParamError::DateTime));
    assert_eq!(
        optional_datetime_param(Some("1970-01-01T00%3A00%3A02.5Z".to_owned())).unwrap(),
        Some(Timestamp(2_500_000))
    );
    assert_eq!(optional_datetime_param(None).unwrap(), None);
    assert_eq!(optional_datetime_param(Some("%FF".to_owned())), Err(ParamError::UrlEncoding));
}

#[test]
fn datetimes_are_written_in_rfc3339() {
    assert_eq!(datetime_text(Timestamp(0)).unwrap(), "1970-01-01T00:00:00+00:00");
    let t = Timestamp(1_700_000_000_123_456);
    let text = datetime_text(t).unwrap();
    assert_eq!(datetime_param(&text).unwrap(), t);
}

#[test]
fn user_requests() {
    let token = AuthenticatedToken::new(Claims::new(vec![], "e@x.io".to_owned(), true, "s".to_owned(), "i".to_owned()));
    let c = user::CreateRequest { name: "Test User 1".to_owned() }.into_create(&token);
    assert_eq!((c.name.as_str(), c.email.as_str(), c.sub.as_str(), c.iss.as_str()), ("Test User 1", "e@x.io", "s", "i"));
    let u = user::UpdateRequest { name: Some("New".to_owned()) }.into_update();
    assert_eq!(u.name, Some("New".to_owned()));
    assert_eq!(u.email, None);
    let f = user::GetListRequest { name: None, email: Some("e@x.io".to_owned()) }.into_filter();
    assert_eq!(f.email, Some("e@x.io".to_owned()));
    assert!(f.id.is_none() && f.sub.is_none() && f.iss.is_none());
}

#[test]
fn account_requests() {
    let owner = RegisteredUser::new(User {
        id: UserId(8),
        created_at: Timestamp(0),
        updated_at: Timestamp(0),
        name: "n".to_owned(),
        email: "e".to_owned(),
        sub: "s".to_owned(),
        iss: "i".to_owned(),
    });
    let c = account::CreateRequest { name: "Savings".to_owned(), institution_id: InstitutionId(3) }.into_create(&owner);
    assert_eq!(c.user_id, UserId(8));
    assert_eq!(c.institution_id, InstitutionId(3));
    let f = account::GetListRequest { name: None, institution_id: Some(InstitutionId(3)) }.into_filter();
    assert_eq!(f.institution_id, Some(InstitutionId(3)));
    assert!(f.user_id.is_none() && f.id.is_none());
    assert_eq!(account::UpdateRequest { name: "x".to_owned() }.into_update().name, "x");
}

#[test]
fn asset_institution_and_transaction_requests() {
    let a = asset::UpdateRequest { name: None, symbol: Some("KRW".to_owned()) }.into_update();
    assert_eq!(a.symbol, Some("KRW".to_owned()));
    assert_eq!(asset::CreateRequest { name: "Won".to_owned(), symbol: "KRW".to_owned() }.into_create().name, "Won");
    assert_eq!(institution::GetListRequest { name: Some("Toss Bank".to_owned()) }.into_filter().name, Some("Toss Bank".to_owned()));
    let t = transaction::CreateRequest {
        posted_at: Timestamp(5),
        description: None,
        account_id: AccountId(1),
        asset_id: AssetId(2),
        quantity: -40,
    }
    .into_create();
    assert_eq!((t.posted_at, t.account_id, t.asset_id, t.quantity), (Timestamp(5), AccountId(1), AssetId(2), -40));
    let u = transaction::UpdateRequest { asset_id: None, posted_at: Some(Timestamp(9)), description: None, quantity: None }
        .into_update();
    assert_eq!(u.posted_at, Some(Timestamp(9)));
}

#[test]
fn decoded_parameters_map_to_values_or_errors() {
    assert_eq!(url_param_of(Some("x".to_owned())).unwrap(), "x");
    assert_eq!(url_param_of(None), Err(ParamError::UrlEncoding));
    assert_eq!(datetime_of(Some(-1)).unwrap(), Timestamp(-1));
    assert_eq!(datetime_of(None), Err(ParamError::DateTime));
}
