use vstd::prelude::*;

use crate::model::cursor_key::{CursorKey, CursorKeyCreate, CursorKeyFilter, CursorKeyId};
use crate::model::transaction::option_time;
use crate::resource::{option_timestamp_view, optional_condition_views, page, spec_limit, spec_offset, SqlQuery};
use crate::resource::{
    bind_views, interleave, interleaved, list_query, list_statement, str_views, BindValue, CreateRepository,
    DeleteRepository, Fetch, GetListRepository, GetRepository, Param, Repository, SqlPart, Statement, UpdateRepository,
};

verus! {

/// The statements on cursor keys.
#[derive(Debug, Clone, Copy)]
pub struct CursorKeyRepository;

impl GetRepository<CursorKeyId, CursorKey> for CursorKeyRepository {
    fn get(&self, id: CursorKeyId) -> (s: Statement)
        ensures
            s.query@ == interleave(seq!["SELECT * FROM cursor_key WHERE id = "@], seq![Param::Int32(id.0)]),
            s.fetch == Fetch::One,
            !s.commit,
    {
        let texts = vec!["SELECT * FROM cursor_key WHERE id = "];
        let values = vec![BindValue::Int32(id.0)];
        assert(str_views(texts@) =~= seq!["SELECT * FROM cursor_key WHERE id = "@]);
        assert(bind_views(values@) =~= seq![Param::Int32(id.0)]);
        interleaved(&texts, values, Fetch::One, false)
    }
}

impl CreateRepository<CursorKeyCreate, CursorKey> for CursorKeyRepository {
    fn create(&self, create_model: CursorKeyCreate) -> (s: Statement)
        ensures
            s.query@ == interleave(seq!["INSERT INTO cursor_key (expires_at) VALUES ("@, ") RETURNING *"@], seq![Param::OptionalTimestamp(option_timestamp_view(create_model.expires_at))]),
            s.fetch == Fetch::One,
            s.commit,
    {
        let ghost g_create_model = create_model;
        let texts = vec!["INSERT INTO cursor_key (expires_at) VALUES (", ") RETURNING *"];
        let values = vec![BindValue::OptionalTimestamp(create_model.expires_at)];
        assert(str_views(texts@) =~= seq!["INSERT INTO cursor_key (expires_at) VALUES ("@, ") RETURNING *"@]);
        assert(bind_views(values@) =~= seq![Param::OptionalTimestamp(option_timestamp_view(g_create_model.expires_at))]);
        interleaved(&texts, values, Fetch::One, true)
    }
}

/// The offset that a cursor key list uses: none counts as 0, negative
/// offsets count as 0.
pub open spec fn cursor_key_offset(offset: Option<i64>) -> i64 {
    match offset {
        Some(x) => spec_offset(x),
        None => 0,
    }
}

/// The query that lists cursor keys. Its text is put together without
/// spaces between `WHERE`, the condition and `OFFSET`, as it always was.
pub open spec fn cursor_key_list_query(offset: Option<i64>, limit: Option<i64>, filter: CursorKeyFilter) -> Seq<SqlPart> {
    seq![SqlPart::Text("SELECT * FROM cursor_key "@), SqlPart::Text("WHERE"@)]
        + optional_condition_views("expires_at IS NULL OR expires_at > "@, option_time(filter.expires_at)).map_values(|c: Seq<SqlPart>| c).fold_left(Seq::<SqlPart>::empty(), |acc: Seq<SqlPart>, c: Seq<SqlPart>| acc + c)
        + seq![
            SqlPart::Text("OFFSET "@),
            SqlPart::Param(Param::Int(cursor_key_offset(offset))),
            SqlPart::Text("LIMIT "@),
            SqlPart::Param(Param::Int(spec_limit(limit))),
        ]
}

impl CursorKeyRepository {
    /// Lists cursor keys, keeping those that expire after the filter's time.
    pub fn get_list(&self, offset: Option<i64>, limit: Option<i64>, filter: CursorKeyFilter) -> (s: Statement)
        ensures
            s.query@ == cursor_key_list_query(offset, limit, filter),
            s.fetch == Fetch::All,
            !s.commit,
    {
        let offset_value = match offset {
            Some(x) => if x < 0 {
                0
            } else {
                x
            },
            None => 0,
        };
        let (_, limit_value) = page(0, limit);
        let mut query = SqlQuery::new("SELECT * FROM cursor_key ");
        query.push("WHERE");
        if let Some(expires_at) = filter.expires_at {
            query.push("expires_at IS NULL OR expires_at > ");
            query.push_bind(BindValue::Timestamp(expires_at));
        }
        query.push("OFFSET ");
        query.push_bind(BindValue::Int(offset_value));
        query.push("LIMIT ");
        query.push_bind(BindValue::Int(limit_value));
        proof {
            let conds = optional_condition_views("expires_at IS NULL OR expires_at > "@, option_time(filter.expires_at));
            if conds.len() > 0 {
                assert(conds.fold_left(Seq::<SqlPart>::empty(), |acc: Seq<SqlPart>, c: Seq<SqlPart>| acc + c) =~= conds[0]) by {
                    reveal_with_fuel(Seq::fold_left, 2);
                }
            } else {
                assert(conds.fold_left(Seq::<SqlPart>::empty(), |acc: Seq<SqlPart>, c: Seq<SqlPart>| acc + c) =~= Seq::<SqlPart>::empty());
            }
            assert(conds.map_values(|c: Seq<SqlPart>| c) =~= conds);
            assert(query@ =~= cursor_key_list_query(offset, limit, filter));
        }
        Statement { query, fetch: Fetch::All, commit: false }
    }
}

} // verus!
