//! The database migration that creates the `users` and `accounts` tables,
//! written as a plan of schema steps that the caller runs against the
//! database.

use vstd::prelude::*;

verus! {

/// Column types the schema uses.
#[derive(Clone, Copy, Debug, PartialEq, Eq, Structural)]
pub enum ColumnType {
    Uuid,
    String,
    Boolean,
    TimestampWithTimeZone,
}

/// Column defaults the schema uses.
#[derive(Clone, Copy, Debug, PartialEq, Eq, Structural)]
pub enum ColumnDefault {
    /// The database's `uuidv7()`.
    UuidV7,
    /// The boolean `false`.
    False,
    /// The current timestamp.
    CurrentTimestamp,
}

/// A column of a table to create.
pub struct ColumnSpec {
    pub name: String,
    pub column_type: ColumnType,
    pub nullable: bool,
    pub primary_key: bool,
    pub default: Option<ColumnDefault>,
}

/// A column, its name by its view.
pub struct ColumnView {
    pub name: Seq<char>,
    pub column_type: ColumnType,
    pub nullable: bool,
    pub primary_key: bool,
    pub default: Option<ColumnDefault>,
}

impl View for ColumnSpec {
    type V = ColumnView;

    open spec fn view(&self) -> ColumnView {
        ColumnView {
            name: self.name@,
            column_type: self.column_type,
            nullable: self.nullable,
            primary_key: self.primary_key,
            default: self.default,
        }
    }
}

/// A foreign key of a table to create.
pub struct ForeignKeySpec {
    pub name: String,
    pub from_table: String,
    pub from_column: String,
    pub to_table: String,
    pub to_column: String,
    /// Deleting the referenced row deletes the referencing rows.
    pub on_delete_cascade: bool,
}

/// A foreign key, its names by their views.
pub struct ForeignKeyView {
    pub name: Seq<char>,
    pub from_table: Seq<char>,
    pub from_column: Seq<char>,
    pub to_table: Seq<char>,
    pub to_column: Seq<char>,
    pub on_delete_cascade: bool,
}

impl View for ForeignKeySpec {
    type V = ForeignKeyView;

    open spec fn view(&self) -> ForeignKeyView {
        ForeignKeyView {
            name: self.name@,
            from_table: self.from_table@,
            from_column: self.from_column@,
            to_table: self.to_table@,
            to_column: self.to_column@,
            on_delete_cascade: self.on_delete_cascade,
        }
    }
}

/// A table to create.
pub struct TableSpec {
    pub name: String,
    /// Creating it is skipped when a table of that name exists.
    pub if_not_exists: bool,
    pub columns: Vec<ColumnSpec>,
    pub foreign_keys: Vec<ForeignKeySpec>,
}

/// A table, its parts by their views.
pub struct TableView {
    pub name: Seq<char>,
    pub if_not_exists: bool,
    pub columns: Seq<ColumnView>,
    pub foreign_keys: Seq<ForeignKeyView>,
}

impl View for TableSpec {
    type V = TableView;

    open spec fn view(&self) -> TableView {
        TableView {
            name: self.name@,
            if_not_exists: self.if_not_exists,
            columns: self.columns@.map_values(|c: ColumnSpec| c@),
            foreign_keys: self.foreign_keys@.map_values(|k: ForeignKeySpec| k@),
        }
    }
}

/// A step of a migration.
pub enum SchemaStep {
    CreateTable(TableSpec),
    DropTable(String),
}

/// A step, by its view.
pub enum StepView {
    CreateTable(TableView),
    DropTable(Seq<char>),
}

impl View for SchemaStep {
    type V = StepView;

    open spec fn view(&self) -> StepView {
        match self {
            SchemaStep::CreateTable(t) => StepView::CreateTable(t@),
            SchemaStep::DropTable(n) => StepView::DropTable(n@),
        }
    }
}

/// Steps by their views.
pub open spec fn steps_view(steps: Seq<SchemaStep>) -> Seq<StepView> {
    steps.map_values(|s: SchemaStep| s@)
}

/// A column by its parts.
pub open spec fn column_view(
    name: Seq<char>,
    column_type: ColumnType,
    nullable: bool,
    primary_key: bool,
    default: Option<ColumnDefault>,
) -> ColumnView {
    ColumnView { name, column_type, nullable, primary_key, default }
}

/// The `users` table: a `uuidv7()` primary key, a name, an email, an
/// email-verified flag that defaults to false, and a creation time that
/// defaults to now.
pub open spec fn users_table() -> TableView {
    TableView {
        name: "users"@,
        if_not_exists: true,
        columns: seq![
            column_view("id"@, ColumnType::Uuid, false, true, Some(ColumnDefault::UuidV7)),
            column_view("name"@, ColumnType::String, false, false, None),
            column_view("email"@, ColumnType::String, false, false, None),
            column_view(
                "email_verified"@,
                ColumnType::Boolean,
                false,
                false,
                Some(ColumnDefault::False),
            ),
            column_view(
                "created_at"@,
                ColumnType::TimestampWithTimeZone,
                false,
                false,
                Some(ColumnDefault::CurrentTimestamp),
            ),
        ],
        foreign_keys: Seq::empty(),
    }
}

/// The foreign key from `accounts.user_id` to `users.id`, cascading
/// deletes.
pub open spec fn user_id_key() -> ForeignKeyView {
    ForeignKeyView {
        name: "user_id"@,
        from_table: "accounts"@,
        from_column: "user_id"@,
        to_table: "users"@,
        to_column: "id"@,
        on_delete_cascade: true,
    }
}

/// The `accounts` table: a `uuidv7()` primary key, the owning user's id, the
/// provider, an optional password, an optional provider id, and a creation
/// time that defaults to now.
pub open spec fn accounts_table() -> TableView {
    TableView {
        name: "accounts"@,
        if_not_exists: true,
        columns: seq![
            column_view("id"@, ColumnType::Uuid, false, true, Some(ColumnDefault::UuidV7)),
            column_view("user_id"@, ColumnType::Uuid, false, false, None),
            column_view("provider"@, ColumnType::String, false, false, None),
            column_view("password"@, ColumnType::String, true, false, None),
            column_view("provider_id"@, ColumnType::String, true, false, None),
            column_view(
                "created_at"@,
                ColumnType::TimestampWithTimeZone,
                false,
                false,
                Some(ColumnDefault::CurrentTimestamp),
            ),
        ],
        foreign_keys: seq![user_id_key()],
    }
}

/// The steps of applying the migration.
pub open spec fn up_plan() -> Seq<StepView> {
    seq![StepView::CreateTable(users_table()), StepView::CreateTable(accounts_table())]
}

/// The steps of reverting the migration.
pub open spec fn down_plan() -> Seq<StepView> {
    seq![StepView::DropTable("users"@), StepView::DropTable("accounts"@)]
}

fn column(
    name: &str,
    column_type: ColumnType,
    nullable: bool,
    primary_key: bool,
    default: Option<ColumnDefault>,
) -> (c: ColumnSpec)
    ensures
        c@ == column_view(name@, column_type, nullable, primary_key, default),
{
    ColumnSpec { name: name.to_string(), column_type, nullable, primary_key, default }
}

fn users_table_spec() -> (t: TableSpec)
    ensures
        t@ == users_table(),
{
    let mut columns: Vec<ColumnSpec> = Vec::new();
    columns.push(column("id", ColumnType::Uuid, false, true, Some(ColumnDefault::UuidV7)));
    columns.push(column("name", ColumnType::String, false, false, None));
    columns.push(column("email", ColumnType::String, false, false, None));
    columns.push(
        column("email_verified", ColumnType::Boolean, false, false, Some(ColumnDefault::False)),
    );
    columns.push(
        column(
            "created_at",
            ColumnType::TimestampWithTimeZone,
            false,
            false,
            Some(ColumnDefault::CurrentTimestamp),
        ),
    );
    let t = TableSpec {
        name: "users".to_string(),
        if_not_exists: true,
        columns,
        foreign_keys: Vec::new(),
    };
    assert(t@.columns =~= users_table().columns);
    assert(t@.foreign_keys =~= users_table().foreign_keys);
    t
}

fn accounts_table_spec() -> (t: TableSpec)
    ensures
        t@ == accounts_table(),
{
    let mut columns: Vec<ColumnSpec> = Vec::new();
    columns.push(column("id", ColumnType::Uuid, false, true, Some(ColumnDefault::UuidV7)));
    columns.push(column("user_id", ColumnType::Uuid, false, false, None));
    columns.push(column("provider", ColumnType::String, false, false, None));
    columns.push(column("password", ColumnType::String, true, false, None));
    columns.push(column("provider_id", ColumnType::String, true, false, None));
    columns.push(
        column(
            "created_at",
            ColumnType::TimestampWithTimeZone,
            false,
            false,
            Some(ColumnDefault::CurrentTimestamp),
        ),
    );
    let mut foreign_keys: Vec<ForeignKeySpec> = Vec::new();
    foreign_keys.push(
        ForeignKeySpec {
            name: "user_id".to_string(),
            from_table: "accounts".to_string(),
            from_column: "user_id".to_string(),
            to_table: "users".to_string(),
            to_column: "id".to_string(),
            on_delete_cascade: true,
        },
    );
    let t = TableSpec { name: "accounts".to_string(), if_not_exists: true, columns, foreign_keys };
    assert(t@.columns =~= accounts_table().columns);
    assert(t@.foreign_keys =~= accounts_table().foreign_keys);
    t
}

/// The migration that creates the `users` and `accounts` tables.
pub struct Migration;

impl Migration {
    /// The migration's name, the stem of the file that defines it.
    pub fn name(&self) -> (r: String)
        ensures
            r@ == "m20220101_000001_create_table"@,
    {
        "m20220101_000001_create_table".to_string()
    }

    /// The steps that apply the migration: create `users`, then `accounts`
    /// with its foreign key to `users`.
    pub fn up(&self) -> (r: Vec<SchemaStep>)
        ensures
            steps_view(r@) == up_plan(),
    {
        let mut steps: Vec<SchemaStep> = Vec::new();
        steps.push(SchemaStep::CreateTable(users_table_spec()));
        steps.push(SchemaStep::CreateTable(accounts_table_spec()));
        assert(steps_view(steps@) =~= up_plan());
        steps
    }

    /// The steps that revert the migration: drop `users`, then `accounts`.
    pub fn down(&self) -> (r: Vec<SchemaStep>)
        ensures
            steps_view(r@) == down_plan(),
    {
        let mut steps: Vec<SchemaStep> = Vec::new();
        steps.push(SchemaStep::DropTable("users".to_string()));
        steps.push(SchemaStep::DropTable("accounts".to_string()));
        assert(steps_view(steps@) =~= down_plan());
        steps
    }
}

/// Whether a step creates the table named `n`.
pub open spec fn creates(s: StepView, n: Seq<char>) -> bool {
    s matches StepView::CreateTable(t) && t.name == n
}

/// Names of the tables that a plan creates.
pub open spec fn created_tables(plan: Seq<StepView>) -> Set<Seq<char>> {
    Set::new(|n: Seq<char>| exists|i: int| 0 <= i < plan.len() && #[trigger] creates(plan[i], n))
}

/// Names of the tables that a plan drops.
pub open spec fn dropped_tables(plan: Seq<StepView>) -> Set<Seq<char>> {
    Set::new(
        |n: Seq<char>| exists|i: int| 0 <= i < plan.len() && #[trigger] plan[i] == StepView::DropTable(n),
    )
}

/// Reverting the migration drops exactly the tables that applying it
/// creates, taken as sets. The order is not the reverse: `users` is dropped
/// before `accounts`, which a database refuses while the foreign key from
/// `accounts` to `users` exists.
pub proof fn law_down_drops_what_up_creates()
    ensures
        dropped_tables(down_plan()) == created_tables(up_plan()),
{
    let up = up_plan();
    let down = down_plan();
    assert forall|n: Seq<char>| created_tables(up).contains(n) == dropped_tables(down).contains(n) by {
        if created_tables(up).contains(n) {
            let i = choose|i: int| 0 <= i < up.len() && #[trigger] creates(up[i], n);
            assert(down[i] == StepView::DropTable(n));
        }
        if dropped_tables(down).contains(n) {
            let i = choose|i: int| 0 <= i < down.len() && #[trigger] down[i] == StepView::DropTable(n);
            assert(creates(up[i], n));
        }
    }
    assert(dropped_tables(down) =~= created_tables(up));
}

/// The `k`-th foreign key of the table that step `i` creates goes from that
/// table to a table that an earlier step creates.
pub open spec fn key_targets_earlier(plan: Seq<StepView>, i: int, k: int) -> bool {
    let t = plan[i]->CreateTable_0;
    &&& t.foreign_keys[k].from_table == t.name
    &&& exists|j: int| 0 <= j < i && #[trigger] creates(plan[j], t.foreign_keys[k].to_table)
}

/// Every foreign key that applying the migration declares goes from the
/// table it is declared on to a table created before it.
pub proof fn law_foreign_keys_reference_earlier_tables()
    ensures
        forall|i: int, k: int|
            0 <= i < up_plan().len() && up_plan()[i] is CreateTable && 0 <= k
                < up_plan()[i]->CreateTable_0.foreign_keys.len() ==> #[trigger] key_targets_earlier(
                up_plan(),
                i,
                k,
            ),
{
    let up = up_plan();
    assert forall|i: int, k: int|
        0 <= i < up.len() && up[i] is CreateTable && 0 <= k
            < up[i]->CreateTable_0.foreign_keys.len() implies #[trigger] key_targets_earlier(
        up,
        i,
        k,
    ) by {
        if i == 0 {
            assert(up[0]->CreateTable_0.foreign_keys.len() == 0);
        } else {
            assert(up[1] == StepView::CreateTable(accounts_table()));
            assert(i == 1 && k == 0);
            assert(accounts_table().foreign_keys[0] == user_id_key());
            assert(up[0] == StepView::CreateTable(users_table()));
            let t = up[1]->CreateTable_0;
            assert(t == accounts_table());
            assert(t.foreign_keys[0].from_table == t.name);
            assert(t.foreign_keys[0].to_table == "users"@);
            assert(creates(up[0], t.foreign_keys[0].to_table));
        }
    }
}


/// The `k`-th foreign key of the table that step `i` creates sits on a NOT
/// NULL column of that table, and points at the primary key of the table it
/// references, a column of the same type.
pub open spec fn key_column_sound(plan: Seq<StepView>, i: int, k: int) -> bool {
    let t = plan[i]->CreateTable_0;
    let key = t.foreign_keys[k];
    exists|c: int|
        0 <= c < t.columns.len() && #[trigger] t.columns[c].name == key.from_column
            && !t.columns[c].nullable && exists|j: int, d: int|
            #![trigger creates(plan[j], key.to_table), plan[j]->CreateTable_0.columns[d]]
            0 <= j < plan.len() && creates(plan[j], key.to_table) && 0 <= d
                < plan[j]->CreateTable_0.columns.len() && plan[j]->CreateTable_0.columns[d].name
                == key.to_column && plan[j]->CreateTable_0.columns[d].primary_key
                && plan[j]->CreateTable_0.columns[d].column_type == t.columns[c].column_type
}

/// Every foreign key that applying the migration declares sits on a column
/// that cannot be NULL (an account always links to a user), and that column
/// has the type of the primary key it references.
pub proof fn law_key_columns_not_null()
    ensures
        forall|i: int, k: int|
            0 <= i < up_plan().len() && up_plan()[i] is CreateTable && 0 <= k
                < up_plan()[i]->CreateTable_0.foreign_keys.len() ==> #[trigger] key_column_sound(
                up_plan(),
                i,
                k,
            ),
{
    let up = up_plan();
    assert forall|i: int, k: int|
        0 <= i < up.len() && up[i] is CreateTable && 0 <= k
            < up[i]->CreateTable_0.foreign_keys.len() implies #[trigger] key_column_sound(
        up,
        i,
        k,
    ) by {
        assert(up[0] == StepView::CreateTable(users_table()));
        assert(up[1] == StepView::CreateTable(accounts_table()));
        if i == 0 {
            assert(users_table().foreign_keys.len() == 0);
        } else {
            let t = accounts_table();
            assert(k == 0);
            assert(t.foreign_keys[0] == user_id_key());
            assert(t.columns[1].name == "user_id"@);
            assert(!t.columns[1].nullable);
            assert(creates(up[0], "users"@));
            assert(users_table().columns[0].name == "id"@);
            assert(users_table().columns[0].primary_key);
            assert(users_table().columns[0].column_type == t.columns[1].column_type);
            let key = t.foreign_keys[0];
            assert(up[1]->CreateTable_0 == t);
            assert(up[0]->CreateTable_0 == users_table());
            assert(t.columns[1].name == key.from_column);
            let cols = up[0]->CreateTable_0.columns;
            assert(creates(up[0], key.to_table) && 0 < cols.len() && cols[0].name == key.to_column
                && cols[0].primary_key && cols[0].column_type == t.columns[1].column_type);
        }
    }
}

/// The table's columns have distinct names, and exactly one of them is the
/// primary key: `id`, a NOT NULL UUID that defaults to `uuidv7()`.
pub open spec fn table_keyed_by_id(t: TableView) -> bool {
    &&& forall|a: int, b: int|
        0 <= a < b < t.columns.len() ==> #[trigger] t.columns[a].name != #[trigger] t.columns[b].name
    &&& exists|c: int|
        0 <= c < t.columns.len() && #[trigger] t.columns[c].primary_key && t.columns[c].name == "id"@
            && !t.columns[c].nullable && t.columns[c].column_type == ColumnType::Uuid
            && t.columns[c].default == Some(ColumnDefault::UuidV7) && forall|d: int|
            0 <= d < t.columns.len() && t.columns[d].primary_key ==> d == c
}

/// Every table that applying the migration creates is created only where
/// missing, has distinct column names, and is keyed by a single `id` UUID
/// column.
pub proof fn law_tables_keyed_by_id()
    ensures
        forall|i: int|
            0 <= i < up_plan().len() && #[trigger] up_plan()[i] is CreateTable ==> {
                &&& up_plan()[i]->CreateTable_0.if_not_exists
                &&& table_keyed_by_id(up_plan()[i]->CreateTable_0)
            },
{
    reveal_strlit("id");
    reveal_strlit("name");
    reveal_strlit("email");
    reveal_strlit("email_verified");
    reveal_strlit("created_at");
    reveal_strlit("user_id");
    reveal_strlit("provider");
    reveal_strlit("password");
    reveal_strlit("provider_id");
    let up = up_plan();
    assert(up[0] == StepView::CreateTable(users_table()));
    assert(up[1] == StepView::CreateTable(accounts_table()));
    let u = users_table();
    let names_u = u.columns.map_values(|c: ColumnView| c.name);
    assert(names_u =~= seq!["id"@, "name"@, "email"@, "email_verified"@, "created_at"@]);
    assert forall|a: int, b: int|
        0 <= a < b < u.columns.len() implies #[trigger] u.columns[a].name
        != #[trigger] u.columns[b].name by {
        assert(u.columns[a].name == names_u[a] && u.columns[b].name == names_u[b]);
        assert(names_u[a].len() != names_u[b].len() || names_u[a][0] != names_u[b][0]
            || names_u[a][1] != names_u[b][1]);
    }
    assert(u.columns[0].primary_key);
    assert(table_keyed_by_id(u));
    let t = accounts_table();
    let names_t = t.columns.map_values(|c: ColumnView| c.name);
    assert(names_t =~= seq!["id"@, "user_id"@, "provider"@, "password"@, "provider_id"@, "created_at"@]);
    assert forall|a: int, b: int|
        0 <= a < b < t.columns.len() implies #[trigger] t.columns[a].name
        != #[trigger] t.columns[b].name by {
        assert(t.columns[a].name == names_t[a] && t.columns[b].name == names_t[b]);
        assert(names_t[a].len() != names_t[b].len() || names_t[a][0] != names_t[b][0]
            || names_t[a][1] != names_t[b][1]);
    }
    assert(t.columns[0].primary_key);
    assert(table_keyed_by_id(t));
}

} // verus!
