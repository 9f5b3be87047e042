use treasury::authorization::actions::{CreateLevel, DeleteLevel, ReadLevel, UpdateLevel};
use treasury::authorization::roles::Role;

#[test]
fn levels_are_listed_most_permissive_first() {
    assert_eq!(ReadLevel::levels(), vec![ReadLevel::ReadAll, ReadLevel::Read, ReadLevel::NoPermission]);
    assert_eq!(CreateLevel::levels(), vec![CreateLevel::Create, CreateLevel::NoPermission]);
    assert_eq!(UpdateLevel::levels(), vec![UpdateLevel::UpdateAll, UpdateLevel::Update, UpdateLevel::NoPermission]);
    assert_eq!(DeleteLevel::levels(), vec![DeleteLevel::DeleteAll, DeleteLevel::Delete, DeleteLevel::NoPermission]);
}

#[test]
fn level_names() {
    assert_eq!(ReadLevel::ReadAll.as_str(), "read_all");
    assert_eq!(ReadLevel::Read.as_str(), "read");
    assert_eq!(ReadLevel::NoPermission.as_str(), "none");
    assert_eq!(CreateLevel::Create.as_str(), "create");
    assert_eq!(UpdateLevel::UpdateAll.as_str(), "update_all");
    assert_eq!(UpdateLevel::Update.as_str(), "update");
    assert_eq!(DeleteLevel::DeleteAll.as_str(), "delete_all");
    assert_eq!(DeleteLevel::Delete.as_str(), "delete");
}

#[test]
fn level_names_round_trip() {
    for l in ReadLevel::levels() {
        assert_eq!(ReadLevel::from_name(l.as_str()), l);
    }
    for l in CreateLevel::levels() {
        assert_eq!(CreateLevel::from_name(l.as_str()), l);
    }
    for l in UpdateLevel::levels() {
        assert_eq!(UpdateLevel::from_name(l.as_str()), l);
    }
    for l in DeleteLevel::levels() {
        assert_eq!(DeleteLevel::from_name(l.as_str()), l);
    }
}

#[test]
fn unknown_level_names_mean_no_permission() {
    assert_eq!(ReadLevel::from_name("write"), ReadLevel::NoPermission);
    assert_eq!(CreateLevel::from_name(""), CreateLevel::NoPermission);
    assert_eq!(UpdateLevel::from_name("UPDATE"), UpdateLevel::NoPermission);
    assert_eq!(DeleteLevel::from_name("delete all"), DeleteLevel::NoPermission);
}

#[test]
fn ranks_round_trip() {
    for (i, l) in ReadLevel::levels().into_iter().enumerate() {
        assert_eq!(l.rank(), i);
        assert_eq!(ReadLevel::from_rank(i), l);
    }
    for (i, l) in DeleteLevel::levels().into_iter().enumerate() {
        assert_eq!(l.rank(), i);
        assert_eq!(DeleteLevel::from_rank(i), l);
    }
}

#[test]
fn defaults_are_no_permission() {
    assert_eq!(ReadLevel::default(), ReadLevel::NoPermission);
    assert_eq!(CreateLevel::default(), CreateLevel::NoPermission);
    assert_eq!(UpdateLevel::default(), UpdateLevel::NoPermission);
    assert_eq!(DeleteLevel::default(), DeleteLevel::NoPermission);
    assert_eq!(Role::default(), Role::NoRole);
}
