//! Keeps the denormalised `creator_read_model` table in step with domain
//! events: which statement each event asks for.
use vstd::prelude::*;
use uuid::Uuid;

use crate::events::types::Event;
use crate::identity::UtcTimestamp;
use crate::text::join;

verus! {

/// The statement that empties the read model before a full rebuild.
pub const TRUNCATE_READ_MODEL: &'static str = "TRUNCATE creator_read_model";

/// The sequence number that a full rebuild replays events from.
pub const REBUILD_FROM_SEQUENCE: i64 = 0;

/// The change to the read model that one event asks for.
#[derive(Debug)]
pub enum ProjectionStatement {
    /// Add the creator with no tips yet, unless it is there already.
    RegisterCreator {
        id: Uuid,
        username: String,
        wallet_address: String,
        registered_at: UtcTimestamp,
    },
    /// Count one more tip for the creator.
    CountTip { creator_id: Uuid },
}

/// The SQL that registers a creator in the read model.
pub open spec fn register_creator_sql() -> Seq<char> {
    "INSERT INTO creator_read_model (id, username, wallet_address, tip_count, registered_at) VALUES ($1, $2, $3, 0, $4) ON CONFLICT (id) DO NOTHING"@
}

/// The SQL that counts a tip in the read model.
pub open spec fn count_tip_sql() -> Seq<char> {
    "UPDATE creator_read_model SET tip_count = tip_count + 1 WHERE id = $1"@
}

/// `sql` inserts into `table` one row whose `columns` take the `values`
/// (each written as SQL text), in that order, and goes on with `rest`.
pub open spec fn is_insert(
    sql: Seq<char>,
    table: Seq<char>,
    columns: Seq<Seq<char>>,
    values: Seq<Seq<char>>,
    rest: Seq<char>,
) -> bool {
    &&& columns.len() == values.len()
    &&& sql == "INSERT INTO "@ + table + " ("@ + join(columns, ", "@) + ") VALUES ("@ + join(
        values,
        ", "@,
    ) + ")"@ + rest
}

/// The row that `sql` inserts into `table` gives `column` the value
/// `value`, and the statement goes on with `rest`.
pub open spec fn inserts_value(
    sql: Seq<char>,
    table: Seq<char>,
    column: Seq<char>,
    value: Seq<char>,
    rest: Seq<char>,
) -> bool {
    exists|columns: Seq<Seq<char>>, values: Seq<Seq<char>>, i: int|
        is_insert(sql, table, columns, values, rest) && 0 <= i < columns.len() && columns[i]
            == column && values[i] == value
}

/// `sql` adds `amount` to `column` of `table`, in the rows that `rest`
/// selects.
pub open spec fn adds_to_column(
    sql: Seq<char>,
    table: Seq<char>,
    column: Seq<char>,
    amount: Seq<char>,
    rest: Seq<char>,
) -> bool {
    sql == "UPDATE "@ + table + " SET "@ + column + " = "@ + column + " + "@ + amount + rest
}

/// How the read model counts tips: a registered creator's row is inserted
/// with a tip count of 0, and left as it is when the creator is there
/// already (`ON CONFLICT (id) DO NOTHING`); each received tip adds 1 to the
/// tip count of its creator's row only (`WHERE id = $1`). Replaying a
/// creator's events thus leaves the number of its tips in its row.
pub proof fn lemma_read_model_counts_tips()
    ensures
        inserts_value(
            register_creator_sql(),
            "creator_read_model"@,
            "tip_count"@,
            "0"@,
            " ON CONFLICT (id) DO NOTHING"@,
        ),
        adds_to_column(
            count_tip_sql(),
            "creator_read_model"@,
            "tip_count"@,
            "1"@,
            " WHERE id = $1"@,
        ),
{
    reveal_strlit("INSERT INTO creator_read_model (id, username, wallet_address, tip_count, registered_at) VALUES ($1, $2, $3, 0, $4) ON CONFLICT (id) DO NOTHING");
    reveal_strlit("UPDATE creator_read_model SET tip_count = tip_count + 1 WHERE id = $1");
    reveal_strlit("INSERT INTO ");
    reveal_strlit(" (");
    reveal_strlit(") VALUES (");
    reveal_strlit(")");
    reveal_strlit(", ");
    reveal_strlit(" ON CONFLICT (id) DO NOTHING");
    reveal_strlit("creator_read_model");
    reveal_strlit("id");
    reveal_strlit("username");
    reveal_strlit("wallet_address");
    reveal_strlit("tip_count");
    reveal_strlit("registered_at");
    reveal_strlit("$1");
    reveal_strlit("$2");
    reveal_strlit("$3");
    reveal_strlit("0");
    reveal_strlit("$4");
    reveal_strlit("UPDATE ");
    reveal_strlit(" SET ");
    reveal_strlit(" = ");
    reveal_strlit(" + ");
    reveal_strlit("1");
    reveal_strlit(" WHERE id = $1");
    let sep = ", "@;
    let columns = seq!["id"@, "username"@, "wallet_address"@, "tip_count"@, "registered_at"@];
    let values = seq!["$1"@, "$2"@, "$3"@, "0"@, "$4"@];
    reveal_strlit("id, username, wallet_address, tip_count, registered_at");
    reveal_strlit("$1, $2, $3, 0, $4");
    let c4 = columns.drop_last();
    let c3 = c4.drop_last();
    let c2 = c3.drop_last();
    let c1 = c2.drop_last();
    assert(join(c1, sep) == "id"@);
    assert(join(c2, sep) == join(c1, sep) + sep + "username"@);
    assert(join(c3, sep) == join(c2, sep) + sep + "wallet_address"@);
    assert(join(c4, sep) == join(c3, sep) + sep + "tip_count"@);
    assert(join(columns, sep) == join(c4, sep) + sep + "registered_at"@);
    assert(join(columns, sep) =~= "id, username, wallet_address, tip_count, registered_at"@);
    let v4 = values.drop_last();
    let v3 = v4.drop_last();
    let v2 = v3.drop_last();
    let v1 = v2.drop_last();
    assert(join(v1, sep) == "$1"@);
    assert(join(v2, sep) == join(v1, sep) + sep + "$2"@);
    assert(join(v3, sep) == join(v2, sep) + sep + "$3"@);
    assert(join(v4, sep) == join(v3, sep) + sep + "0"@);
    assert(join(values, sep) == join(v4, sep) + sep + "$4"@);
    assert(join(values, sep) =~= "$1, $2, $3, 0, $4"@);
    assert(register_creator_sql() =~= "INSERT INTO "@ + "creator_read_model"@ + " ("@
        + "id, username, wallet_address, tip_count, registered_at"@ + ") VALUES ("@
        + "$1, $2, $3, 0, $4"@ + ")"@ + " ON CONFLICT (id) DO NOTHING"@);
    assert(is_insert(
        register_creator_sql(),
        "creator_read_model"@,
        columns,
        values,
        " ON CONFLICT (id) DO NOTHING"@,
    ));
    assert(columns[3] == "tip_count"@ && values[3] == "0"@);
    assert(count_tip_sql() =~= "UPDATE "@ + "creator_read_model"@ + " SET "@ + "tip_count"@ + " = "@
        + "tip_count"@ + " + "@ + "1"@ + " WHERE id = $1"@);
}

impl ProjectionStatement {
    /// The statement's SQL; its parameters are the variant's fields in order.
    pub fn sql(&self) -> (sql: &'static str)
        ensures
            sql@ == match self {
                ProjectionStatement::RegisterCreator { .. } => register_creator_sql(),
                ProjectionStatement::CountTip { .. } => count_tip_sql(),
            },
    {
        match self {
            ProjectionStatement::RegisterCreator { .. } => "INSERT INTO creator_read_model (id, username, wallet_address, tip_count, registered_at) VALUES ($1, $2, $3, 0, $4) ON CONFLICT (id) DO NOTHING",
            ProjectionStatement::CountTip { .. } => "UPDATE creator_read_model SET tip_count = tip_count + 1 WHERE id = $1",
        }
    }
}

/// The change that applying `event` to the read model makes: a registered
/// creator is added, a received tip is counted for its creator.
pub fn projection_for(event: Event) -> (st: ProjectionStatement)
    ensures
        match event {
            Event::CreatorRegistered { id, username, wallet_address, timestamp } => st
                == ProjectionStatement::RegisterCreator {
                id,
                username,
                wallet_address,
                registered_at: timestamp,
            },
            Event::TipReceived { creator_id, .. } => st == ProjectionStatement::CountTip {
                creator_id,
            },
        },
{
    match event {
        Event::CreatorRegistered { id, username, wallet_address, timestamp } => {
            ProjectionStatement::RegisterCreator {
                id,
                username,
                wallet_address,
                registered_at: timestamp,
            }
        },
        Event::TipReceived { creator_id, .. } => ProjectionStatement::CountTip { creator_id },
    }
}

} // verus!
