//! The texts of the queries that select stored readings, delete sessions
//! and name the area of a sensor.

use vstd::prelude::*;
use vstd::string::StringExecFns;
use crate::api::db::AreaEntity;
use crate::api::db::UserSession;
use crate::text::decimal_chars;
use crate::text::i64_to_string;
use crate::text::signed_chars;
use crate::text::u64_to_string;

verus! {

/// The items with `separator` between each two of them.
pub open spec fn joined(items: Seq<Seq<char>>, separator: Seq<char>) -> Seq<char>
    decreases items.len(),
{
    if items.len() == 0 {
        Seq::empty()
    } else if items.len() == 1 {
        items[0]
    } else {
        joined(items.drop_last(), separator) + separator + items.last()
    }
}

/// The texts of strings.
pub open spec fn texts(items: Seq<String>) -> Seq<Seq<char>> {
    items.map_values(|s: String| s@)
}

/// The condition of a query for stored readings: the hosts to select, if
/// any are named, and the time after which the readings were taken, if one
/// is named.
pub open spec fn readings_condition(hosts: Option<Seq<Seq<char>>>, after: Option<i64>) -> Seq<
    char,
> {
    match hosts {
        Some(h) => " WHERE host IN ('"@ + joined(h, "', '"@) + "')"@ + (match after {
            Some(a) => " AND timestamp > "@ + signed_chars(a as int),
            None => Seq::empty(),
        }),
        None => match after {
            Some(a) => " WHERE timestamp > "@ + signed_chars(a as int),
            None => Seq::empty(),
        },
    }
}

/// The query for stored readings, newest first: with its condition, and
/// with a limit and an offset where they are named.
pub open spec fn readings_query(
    hosts: Option<Seq<Seq<char>>>,
    limit: Option<usize>,
    offset: Option<usize>,
    after: Option<i64>,
) -> Seq<char> {
    "SELECT * FROM sensor_temp_data"@ + readings_condition(hosts, after)
        + " ORDER BY timestamp DESC"@ + (match limit {
        Some(l) => " LIMIT "@ + decimal_chars(l as nat),
        None => Seq::empty(),
    }) + (match offset {
        Some(o) => " OFFSET "@ + decimal_chars(o as nat),
        None => Seq::empty(),
    })
}

/// Appends the items with `separator` between each two of them.
fn append_joined(out: &mut String, items: &Vec<String>, separator: &str)
    ensures
        final(out)@ == old(out)@ + joined(texts(items@), separator@),
{
    let n = items.len();
    let mut i: usize = 0;
    let ghost all = texts(items@);
    assert(all.take(0) =~= Seq::<Seq<char>>::empty());
    assert(old(out)@ + joined(all.take(0), separator@) =~= old(out)@);
    while i < n
        invariant
            i <= n == items@.len(),
            all == texts(items@),
            out@ == old(out)@ + joined(all.take(i as int), separator@),
        decreases n - i,
    {
        let ghost before = all.take(i as int);
        let ghost upto = all.take(i + 1);
        proof {
            assert(upto.drop_last() =~= before);
            assert(upto.last() == items@[i as int]@);
        }
        if i > 0 {
            out.append(separator);
        }
        out.append(items[i].as_str());
        assert(out@ =~= old(out)@ + joined(upto, separator@));
        i += 1;
    }
    assert(all.take(n as int) =~= all);
}

/// The query for stored readings.
pub fn temp_data_query(
    hosts: Option<&Vec<String>>,
    limit: Option<usize>,
    offset: Option<usize>,
    after: Option<i64>,
) -> (query: String)
    ensures
        query@ == readings_query(
            match hosts {
                Some(h) => Some(texts(h@)),
                None => None,
            },
            limit,
            offset,
            after,
        ),
{
    let mut query = String::from_str("SELECT * FROM sensor_temp_data");
    let ghost start = query@;
    match hosts {
        Some(h) => {
            query.append(" WHERE host IN ('");
            append_joined(&mut query, h, "', '");
            query.append("')");
            match after {
                Some(a) => {
                    query.append(" AND timestamp > ");
                    query.append(i64_to_string(a).as_str());
                },
                None => {},
            }
        },
        None => match after {
            Some(a) => {
                query.append(" WHERE timestamp > ");
                query.append(i64_to_string(a).as_str());
            },
            None => {},
        },
    }
    assert(query@ =~= start + readings_condition(
        match hosts {
            Some(h) => Some(texts(h@)),
            None => None,
        },
        after,
    ));
    query.append(" ORDER BY timestamp DESC");
    match limit {
        Some(l) => {
            query.append(" LIMIT ");
            query.append(u64_to_string(l as u64).as_str());
        },
        None => {},
    }
    match offset {
        Some(o) => {
            query.append(" OFFSET ");
            query.append(u64_to_string(o as u64).as_str());
        },
        None => {},
    }
    assert(query@ =~= readings_query(
        match hosts {
            Some(h) => Some(texts(h@)),
            None => None,
        },
        limit,
        offset,
        after,
    ));
    query
}

/// The condition that selects one session.
pub open spec fn session_condition(session: UserSession) -> Seq<char> {
    "(normalized_name = '"@ + session.normalized_name@ + "' AND token = '"@ + session.token@
        + "')"@
}

/// The conditions of the sessions, with `OR` between them.
pub open spec fn session_conditions(sessions: Seq<UserSession>) -> Seq<char> {
    joined(sessions.map_values(|s: UserSession| session_condition(s)), " OR "@)
}

/// The query that deletes the given sessions.
pub fn delete_sessions_query(sessions: &Vec<UserSession>) -> (query: String)
    ensures
        query@ == "DELETE FROM user_sessions WHERE "@ + session_conditions(sessions@),
{
    let mut conditions: Vec<String> = Vec::new();
    let n = sessions.len();
    let mut i: usize = 0;
    while i < n
        invariant
            i <= n == sessions@.len(),
            conditions@.len() == i,
            forall|k: int| 0 <= k < i ==> (#[trigger] conditions@[k])@ == session_condition(
                sessions@[k],
            ),
        decreases n - i,
    {
        let mut condition = String::from_str("(normalized_name = '");
        condition.append(sessions[i].normalized_name.as_str());
        condition.append("' AND token = '");
        condition.append(sessions[i].token.as_str());
        condition.append("')");
        conditions.push(condition);
        i += 1;
    }
    assert(texts(conditions@) =~= sessions@.map_values(|s: UserSession| session_condition(s)));
    let mut query = String::from_str("DELETE FROM user_sessions WHERE ");
    append_joined(&mut query, &conditions, " OR ");
    query
}

/// The area of a sensor as a query names it: its id, or `NULL` where the
/// sensor stands in no area.
pub fn area_id_text(area: &Option<AreaEntity>) -> (text: String)
    ensures
        text@ == (match area {
            Some(a) => signed_chars(a.id as int),
            None => "NULL"@,
        }),
{
    match area {
        Some(a) => i64_to_string(a.id),
        None => String::from_str("NULL"),
    }
}

} // verus!
