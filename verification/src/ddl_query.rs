//! The DDL queries of each SQL dialect: table existence, table schema,
//! table list and primary key.

use crate::builder::{DdlQuery, SqlBuilder};
use crate::text::{replace_all, replace_text};
use vstd::prelude::*;

verus! {

/// The placeholder that the templates hold where the table's name goes.
pub const TABLE_NAME_PLACEHOLDER: &'static str = "_table_name_";

/// The query template that checks whether a table exists (PostgreSQL).
pub const CHECK_TABLE_POSTGRES: &'static str = r#"
                SELECT EXISTS(
                    SELECT 1
                    FROM information_schema.tables
                    WHERE TABLE_NAME = '_table_name_'
                )::int"#;

/// The query template that checks whether a table exists (MySQL).
pub const CHECK_TABLE_MYSQL: &'static str = r#"
                SELECT EXISTS(
                    SELECT 1
                    FROM information_schema.TABLES
                    WHERE TABLE_NAME = '_table_name_'
                )"#;

/// The query template that checks whether a table exists (SQLite).
pub const CHECK_TABLE_SQLITE: &'static str = r#"
                SELECT EXISTS(
                    SELECT 1
                    FROM sqlite_master
                    WHERE type='table'
                    AND name = '_table_name_'
                )"#;

/// The query template that lists a table's columns, types and nullability (MySQL).
pub const TABLE_SCHEMA_MYSQL: &'static str = r#"
                SELECT
                    column_name,
                    data_type,
                    CASE WHEN is_nullable = 'YES' THEN 1 else 0 END AS is_nullable
                FROM
                    information_schema.columns
                WHERE
                    table_name = '_table_name_'
                "#;

/// The query template that lists a table's columns, types and nullability (PostgreSQL).
pub const TABLE_SCHEMA_POSTGRES: &'static str = r#"
                SELECT
                    column_name,
                    udt_name,
                    CASE WHEN is_nullable = 'YES' THEN 1 else 0 END AS is_nullable
                FROM
                    information_schema.columns
                WHERE
                    table_name = '_table_name_'
                "#;

/// The query template that lists a table's columns, types and nullability (SQLite).
pub const TABLE_SCHEMA_SQLITE: &'static str = r#"
                SELECT
                    name,
                    type,
                    CASE WHEN `notnull` = 0 THEN 1 else 0 END AS is_nullable
                FROM
                    PRAGMA_TABLE_INFO('_table_name_')
                "#;

/// The query template that lists the tables of the database (MySQL).
pub const LIST_TABLES_MYSQL: &'static str = r#"
                SHOW TABLES
                "#;

/// The query template that lists the tables of the database (PostgreSQL).
pub const LIST_TABLES_POSTGRES: &'static str = r#"
                SELECT table_name
                FROM information_schema.tables
                WHERE table_schema='public'
                "#;

/// The query template that lists the tables of the database (SQLite).
pub const LIST_TABLES_SQLITE: &'static str = r#"
                SELECT name
                FROM sqlite_master
                WHERE type='table'
                "#;

/// The query template that selects a table's primary key column (MySQL).
pub const PRIMARY_KEY_MYSQL: &'static str = r#"
                SELECT
                    COLUMN_NAME
                FROM
                    INFORMATION_SCHEMA.COLUMNS
                WHERE
                    TABLE_NAME = '_table_name_'
                    AND COLUMN_KEY = 'PRI'
                "#;

/// The query template that selects a table's primary key column (PostgreSQL).
pub const PRIMARY_KEY_POSTGRES: &'static str = r#"
                SELECT
                    c.column_name
                FROM
                    information_schema.key_column_usage AS c
                LEFT JOIN information_schema.table_constraints AS t
                ON
                    t.constraint_name = c.constraint_name
                WHERE
                    t.table_name = '_table_name_'
                    AND t.constraint_type = 'PRIMARY KEY'
                "#;

/// The query template that selects a table's primary key column (SQLite).
pub const PRIMARY_KEY_SQLITE: &'static str = r#"
                SELECT
                    l.name
                FROM
                    pragma_table_info("_table_name_") as l
                WHERE
                    l.pk = 1
                "#;

/// The template of the table-existence query of a dialect.
pub open spec fn check_table_template(b: SqlBuilder) -> Seq<char> {
    match b {
        SqlBuilder::Postgres => CHECK_TABLE_POSTGRES@,
        SqlBuilder::Mysql => CHECK_TABLE_MYSQL@,
        SqlBuilder::Sqlite => CHECK_TABLE_SQLITE@,
    }
}

/// The template of the table-schema query of a dialect.
pub open spec fn table_schema_template(b: SqlBuilder) -> Seq<char> {
    match b {
        SqlBuilder::Mysql => TABLE_SCHEMA_MYSQL@,
        SqlBuilder::Postgres => TABLE_SCHEMA_POSTGRES@,
        SqlBuilder::Sqlite => TABLE_SCHEMA_SQLITE@,
    }
}

/// The table-list query of a dialect.
pub open spec fn list_tables_query(b: SqlBuilder) -> Seq<char> {
    match b {
        SqlBuilder::Mysql => LIST_TABLES_MYSQL@,
        SqlBuilder::Postgres => LIST_TABLES_POSTGRES@,
        SqlBuilder::Sqlite => LIST_TABLES_SQLITE@,
    }
}

/// The template of the primary-key query of a dialect.
pub open spec fn primary_key_template(b: SqlBuilder) -> Seq<char> {
    match b {
        SqlBuilder::Mysql => PRIMARY_KEY_MYSQL@,
        SqlBuilder::Postgres => PRIMARY_KEY_POSTGRES@,
        SqlBuilder::Sqlite => PRIMARY_KEY_SQLITE@,
    }
}

/// The query of a template for a table: every placeholder replaced by the
/// table's name.
pub open spec fn for_table(template: Seq<char>, table_name: Seq<char>) -> Seq<char> {
    replace_all(template, TABLE_NAME_PLACEHOLDER@, table_name)
}

/// Fills a template's placeholders with a table name.
fn fill_template(template: &str, table_name: &str) -> (res: String)
    ensures
        res@ == for_table(template@, table_name@),
        res@ == replace_all(template@, "_table_name_"@, table_name@),
{
    proof {
        reveal_strlit("_table_name_");
    }
    replace_text(template, TABLE_NAME_PLACEHOLDER, table_name)
}

impl DdlQuery for SqlBuilder {
    /// The query that checks whether a table exists.
    fn check_table(&self, table_name: &str) -> (res: String)
        ensures
            res@ == for_table(check_table_template(*self), table_name@),
            *self is Mysql ==> res@ == CHECK_TABLE_MYSQL@.take(152) + table_name@ + CHECK_TABLE_MYSQL@.skip(164),
            *self is Postgres ==> res@ == CHECK_TABLE_POSTGRES@.take(152) + table_name@ + CHECK_TABLE_POSTGRES@.skip(164),
            *self is Sqlite ==> res@ == CHECK_TABLE_SQLITE@.take(171) + table_name@ + CHECK_TABLE_SQLITE@.skip(183),
    {
        proof {
            lemma_check_table_mysql_shape(table_name@);
            lemma_check_table_postgres_shape(table_name@);
            lemma_check_table_sqlite_shape(table_name@);
        }
        let que: &'static str = match self {
            SqlBuilder::Postgres => CHECK_TABLE_POSTGRES,
            SqlBuilder::Mysql => CHECK_TABLE_MYSQL,
            SqlBuilder::Sqlite => CHECK_TABLE_SQLITE,
        };
        fill_template(que, table_name)
    }

    /// The query that lists a table's columns, with their types and whether
    /// they are nullable.
    fn check_table_schema(&self, table_name: &str) -> (res: String)
        ensures
            res@ == for_table(table_schema_template(*self), table_name@),
            *self is Mysql ==> res@ == TABLE_SCHEMA_MYSQL@.take(295) + table_name@ + TABLE_SCHEMA_MYSQL@.skip(307),
            *self is Postgres ==> res@ == TABLE_SCHEMA_POSTGRES@.take(294) + table_name@ + TABLE_SCHEMA_POSTGRES@.skip(306),
            *self is Sqlite ==> res@ == TABLE_SCHEMA_SQLITE@.take(213) + table_name@ + TABLE_SCHEMA_SQLITE@.skip(225),
    {
        proof {
            lemma_table_schema_mysql_shape(table_name@);
            lemma_table_schema_postgres_shape(table_name@);
            lemma_table_schema_sqlite_shape(table_name@);
        }
        let que: &'static str = match self {
            SqlBuilder::Mysql => TABLE_SCHEMA_MYSQL,
            SqlBuilder::Postgres => TABLE_SCHEMA_POSTGRES,
            SqlBuilder::Sqlite => TABLE_SCHEMA_SQLITE,
        };
        fill_template(que, table_name)
    }

    /// The query that lists all tables in the current database.
    fn list_tables(&self) -> (res: String)
        ensures
            res@ == list_tables_query(*self),
            *self is Mysql ==> res@ == LIST_TABLES_MYSQL@,
            *self is Postgres ==> res@ == LIST_TABLES_POSTGRES@,
            *self is Sqlite ==> res@ == LIST_TABLES_SQLITE@,
            !holds_placeholder(res@),
    {
        proof {
            lemma_list_tables_mysql_shape(seq![]);
            lemma_list_tables_postgres_shape(seq![]);
            lemma_list_tables_sqlite_shape(seq![]);
        }
        let que: &'static str = match self {
            SqlBuilder::Mysql => LIST_TABLES_MYSQL,
            SqlBuilder::Postgres => LIST_TABLES_POSTGRES,
            SqlBuilder::Sqlite => LIST_TABLES_SQLITE,
        };
        que.to_owned()
    }

    /// The query that selects a table's primary key column.
    fn get_primary_key(&self, table_name: &str) -> (res: String)
        ensures
            res@ == for_table(primary_key_template(*self), table_name@),
            *self is Mysql ==> res@ == PRIMARY_KEY_MYSQL@.take(180) + table_name@ + PRIMARY_KEY_MYSQL@.skip(192),
            *self is Postgres ==> res@ == PRIMARY_KEY_POSTGRES@.take(343) + table_name@ + PRIMARY_KEY_POSTGRES@.skip(355),
            *self is Sqlite ==> res@ == PRIMARY_KEY_SQLITE@.take(111) + table_name@ + PRIMARY_KEY_SQLITE@.skip(123),
    {
        proof {
            lemma_primary_key_mysql_shape(table_name@);
            lemma_primary_key_postgres_shape(table_name@);
            lemma_primary_key_sqlite_shape(table_name@);
        }
        let que: &'static str = match self {
            SqlBuilder::Mysql => PRIMARY_KEY_MYSQL,
            SqlBuilder::Postgres => PRIMARY_KEY_POSTGRES,
            SqlBuilder::Sqlite => PRIMARY_KEY_SQLITE,
        };
        fill_template(que, table_name)
    }
}

} // verus!

verus! {

/// `p` occurs in `s` starting at position `i`.
pub open spec fn occurs_at(s: Seq<char>, p: Seq<char>, i: int) -> bool {
    0 <= i && i + p.len() <= s.len() && s.subrange(i, i + p.len()) == p
}

/// `s` holds the table-name placeholder somewhere.
pub open spec fn holds_placeholder(s: Seq<char>) -> bool {
    exists|i: int| occurs_at(s, "_table_name_"@, i)
}

/// Replacing in `s` where no placeholder starts before position `k` keeps
/// the first `k` characters and replaces in the rest.
proof fn lemma_replace_after(s: Seq<char>, k: int, r: Seq<char>)
    requires
        0 <= k <= s.len(),
        forall|i: int| 0 <= i < k ==> !occurs_at(s, "_table_name_"@, i),
    ensures
        replace_all(s, "_table_name_"@, r) == s.take(k) + replace_all(s.skip(k), "_table_name_"@, r),
    decreases k,
{
    reveal_strlit("_table_name_");
    let p = "_table_name_"@;
    if k == 0 {
        assert(s.take(0) + s.skip(0) =~= s.skip(0));
        assert(s.skip(0) =~= s);
    } else {
        lemma_replace_after(s, k - 1, r);
        let t = s.skip(k - 1);
        assert(t.skip(1) =~= s.skip(k));
        if t.len() < p.len() {
            assert(replace_all(t, p, r) == t);
            assert(replace_all(t.skip(1), p, r) == t.skip(1));
            assert(s.take(k - 1) + t =~= s.take(k) + s.skip(k));
        } else {
            assert(!occurs_at(s, p, k - 1));
            assert(t.take(p.len() as int) =~= s.subrange(k - 1, k - 1 + p.len()));
            assert(replace_all(t, p, r) == seq![t[0]] + replace_all(t.skip(1), p, r));
            assert(s.take(k - 1) + seq![t[0]] =~= s.take(k));
            assert(s.take(k - 1) + (seq![t[0]] + replace_all(t.skip(1), p, r)) =~= s.take(k)
                + replace_all(s.skip(k), p, r));
        }
    }
}

/// A text in which the placeholder occurs nowhere is left as it is.
proof fn lemma_replace_none(s: Seq<char>, r: Seq<char>)
    requires
        !holds_placeholder(s),
    ensures
        replace_all(s, "_table_name_"@, r) == s,
{
    lemma_replace_after(s, s.len() as int, r);
    assert(s.take(s.len() as int) =~= s);
    assert(s.skip(s.len() as int).len() == 0);
}

/// A template with the placeholder at `k` and nowhere else, filled with a
/// table name: the table name stands verbatim where the placeholder was.
proof fn lemma_fill_single(s: Seq<char>, k: int, n: Seq<char>)
    requires
        occurs_at(s, "_table_name_"@, k),
        forall|i: int| i != k ==> !occurs_at(s, "_table_name_"@, i),
    ensures
        for_table(s, n) == s.take(k) + n + s.skip(k + 12),
{
    reveal_strlit("_table_name_");
    let p = "_table_name_"@;
    lemma_replace_after(s, k, n);
    let t = s.skip(k);
    assert(t.take(12) =~= s.subrange(k, k + 12));
    assert(t.skip(12) =~= s.skip(k + 12));
    assert(replace_all(t, p, n) == n + replace_all(t.skip(12), p, n));
    let u = s.skip(k + 12);
    assert forall|j: int| !occurs_at(u, p, j) by {
        if occurs_at(u, p, j) {
            assert(u.subrange(j, j + 12) =~= s.subrange(k + 12 + j, k + 12 + j + 12));
            assert(occurs_at(s, p, k + 12 + j));
        }
    }
    lemma_replace_none(u, n);
    assert(s.take(k) + (n + u) =~= s.take(k) + n + u);
}

} // verus!

verus! {

/// The template `CHECK_TABLE_POSTGRES` holds the placeholder at position 152, between
/// quotes, and nowhere else; filled with a table name it holds that name
/// verbatim in its place.
pub proof fn lemma_check_table_postgres_shape(n: Seq<char>)
    ensures
        occurs_at(CHECK_TABLE_POSTGRES@, "_table_name_"@, 152),
        forall|i: int| i != 152 ==> !occurs_at(CHECK_TABLE_POSTGRES@, "_table_name_"@, i),
        CHECK_TABLE_POSTGRES@[151] == '\'' && CHECK_TABLE_POSTGRES@[164] == '\'',
        for_table(CHECK_TABLE_POSTGRES@, n) == CHECK_TABLE_POSTGRES@.take(152) + n + CHECK_TABLE_POSTGRES@.skip(164),
{
    reveal_strlit("_table_name_");
    reveal_strlit(r#"
                SELECT EXISTS(
                    SELECT 1
                    FROM information_schema.tables
                    WHERE TABLE_NAME = '_table_name_'
                )::int"#);
    assert(CHECK_TABLE_POSTGRES@.subrange(152, 164) =~= "_table_name_"@);
    assert forall|i: int| i != 152 implies !occurs_at(CHECK_TABLE_POSTGRES@, "_table_name_"@, i) by {
        if occurs_at(CHECK_TABLE_POSTGRES@, "_table_name_"@, i) {
            let w = CHECK_TABLE_POSTGRES@.subrange(i, i + 12);
            assert(w[0] == '_' && w[1] == 't' && w[2] == 'a' && w[3] == 'b' && w[4] == 'l' && w[5] == 'e');
            assert(w[6] == '_' && w[7] == 'n' && w[8] == 'a' && w[9] == 'm' && w[10] == 'e' && w[11] == '_');
        }
    }
    lemma_fill_single(CHECK_TABLE_POSTGRES@, 152, n);
}

/// The template `CHECK_TABLE_MYSQL` holds the placeholder at position 152, between
/// quotes, and nowhere else; filled with a table name it holds that name
/// verbatim in its place.
pub proof fn lemma_check_table_mysql_shape(n: Seq<char>)
    ensures
        occurs_at(CHECK_TABLE_MYSQL@, "_table_name_"@, 152),
        forall|i: int| i != 152 ==> !occurs_at(CHECK_TABLE_MYSQL@, "_table_name_"@, i),
        CHECK_TABLE_MYSQL@[151] == '\'' && CHECK_TABLE_MYSQL@[164] == '\'',
        for_table(CHECK_TABLE_MYSQL@, n) == CHECK_TABLE_MYSQL@.take(152) + n + CHECK_TABLE_MYSQL@.skip(164),
{
    reveal_strlit("_table_name_");
    reveal_strlit(r#"
                SELECT EXISTS(
                    SELECT 1
                    FROM information_schema.TABLES
                    WHERE TABLE_NAME = '_table_name_'
                )"#);
    assert(CHECK_TABLE_MYSQL@.subrange(152, 164) =~= "_table_name_"@);
    assert forall|i: int| i != 152 implies !occurs_at(CHECK_TABLE_MYSQL@, "_table_name_"@, i) by {
        if occurs_at(CHECK_TABLE_MYSQL@, "_table_name_"@, i) {
            let w = CHECK_TABLE_MYSQL@.subrange(i, i + 12);
            assert(w[0] == '_' && w[1] == 't' && w[2] == 'a' && w[3] == 'b' && w[4] == 'l' && w[5] == 'e');
            assert(w[6] == '_' && w[7] == 'n' && w[8] == 'a' && w[9] == 'm' && w[10] == 'e' && w[11] == '_');
        }
    }
    lemma_fill_single(CHECK_TABLE_MYSQL@, 152, n);
}

/// The template `CHECK_TABLE_SQLITE` holds the placeholder at position 171, between
/// quotes, and nowhere else; filled with a table name it holds that name
/// verbatim in its place.
pub proof fn lemma_check_table_sqlite_shape(n: Seq<char>)
    ensures
        occurs_at(CHECK_TABLE_SQLITE@, "_table_name_"@, 171),
        forall|i: int| i != 171 ==> !occurs_at(CHECK_TABLE_SQLITE@, "_table_name_"@, i),
        CHECK_TABLE_SQLITE@[170] == '\'' && CHECK_TABLE_SQLITE@[183] == '\'',
        for_table(CHECK_TABLE_SQLITE@, n) == CHECK_TABLE_SQLITE@.take(171) + n + CHECK_TABLE_SQLITE@.skip(183),
{
    reveal_strlit("_table_name_");
    reveal_strlit(r#"
                SELECT EXISTS(
                    SELECT 1
                    FROM sqlite_master
                    WHERE type='table'
                    AND name = '_table_name_'
                )"#);
    assert(CHECK_TABLE_SQLITE@.subrange(171, 183) =~= "_table_name_"@);
    assert forall|i: int| i != 171 implies !occurs_at(CHECK_TABLE_SQLITE@, "_table_name_"@, i) by {
        if occurs_at(CHECK_TABLE_SQLITE@, "_table_name_"@, i) {
            let w = CHECK_TABLE_SQLITE@.subrange(i, i + 12);
            assert(w[0] == '_' && w[1] == 't' && w[2] == 'a' && w[3] == 'b' && w[4] == 'l' && w[5] == 'e');
            assert(w[6] == '_' && w[7] == 'n' && w[8] == 'a' && w[9] == 'm' && w[10] == 'e' && w[11] == '_');
        }
    }
    lemma_fill_single(CHECK_TABLE_SQLITE@, 171, n);
}

/// The template `TABLE_SCHEMA_MYSQL` holds the placeholder at position 295, between
/// quotes, and nowhere else; filled with a table name it holds that name
/// verbatim in its place.
pub proof fn lemma_table_schema_mysql_shape(n: Seq<char>)
    ensures
        occurs_at(TABLE_SCHEMA_MYSQL@, "_table_name_"@, 295),
        forall|i: int| i != 295 ==> !occurs_at(TABLE_SCHEMA_MYSQL@, "_table_name_"@, i),
        TABLE_SCHEMA_MYSQL@[294] == '\'' && TABLE_SCHEMA_MYSQL@[307] == '\'',
        for_table(TABLE_SCHEMA_MYSQL@, n) == TABLE_SCHEMA_MYSQL@.take(295) + n + TABLE_SCHEMA_MYSQL@.skip(307),
{
    reveal_strlit("_table_name_");
    reveal_strlit(r#"
                SELECT
                    column_name,
                    data_type,
                    CASE WHEN is_nullable = 'YES' THEN 1 else 0 END AS is_nullable
                FROM
                    information_schema.columns
                WHERE
                    table_name = '_table_name_'
                "#);
    assert(TABLE_SCHEMA_MYSQL@.subrange(295, 307) =~= "_table_name_"@);
    assert forall|i: int| i != 295 implies !occurs_at(TABLE_SCHEMA_MYSQL@, "_table_name_"@, i) by {
        if occurs_at(TABLE_SCHEMA_MYSQL@, "_table_name_"@, i) {
            let w = TABLE_SCHEMA_MYSQL@.subrange(i, i + 12);
            assert(w[0] == '_' && w[1] == 't' && w[2] == 'a' && w[3] == 'b' && w[4] == 'l' && w[5] == 'e');
            assert(w[6] == '_' && w[7] == 'n' && w[8] == 'a' && w[9] == 'm' && w[10] == 'e' && w[11] == '_');
        }
    }
    lemma_fill_single(TABLE_SCHEMA_MYSQL@, 295, n);
}

/// The template `TABLE_SCHEMA_POSTGRES` holds the placeholder at position 294, between
/// quotes, and nowhere else; filled with a table name it holds that name
/// verbatim in its place.
pub proof fn lemma_table_schema_postgres_shape(n: Seq<char>)
    ensures
        occurs_at(TABLE_SCHEMA_POSTGRES@, "_table_name_"@, 294),
        forall|i: int| i != 294 ==> !occurs_at(TABLE_SCHEMA_POSTGRES@, "_table_name_"@, i),
        TABLE_SCHEMA_POSTGRES@[293] == '\'' && TABLE_SCHEMA_POSTGRES@[306] == '\'',
        for_table(TABLE_SCHEMA_POSTGRES@, n) == TABLE_SCHEMA_POSTGRES@.take(294) + n + TABLE_SCHEMA_POSTGRES@.skip(306),
{
    reveal_strlit("_table_name_");
    reveal_strlit(r#"
                SELECT
                    column_name,
                    udt_name,
                    CASE WHEN is_nullable = 'YES' THEN 1 else 0 END AS is_nullable
                FROM
                    information_schema.columns
                WHERE
                    table_name = '_table_name_'
                "#);
    assert(TABLE_SCHEMA_POSTGRES@.subrange(294, 306) =~= "_table_name_"@);
    assert forall|i: int| i != 294 implies !occurs_at(TABLE_SCHEMA_POSTGRES@, "_table_name_"@, i) by {
        if occurs_at(TABLE_SCHEMA_POSTGRES@, "_table_name_"@, i) {
            let w = TABLE_SCHEMA_POSTGRES@.subrange(i, i + 12);
            assert(w[0] == '_' && w[1] == 't' && w[2] == 'a' && w[3] == 'b' && w[4] == 'l' && w[5] == 'e');
            assert(w[6] == '_' && w[7] == 'n' && w[8] == 'a' && w[9] == 'm' && w[10] == 'e' && w[11] == '_');
        }
    }
    lemma_fill_single(TABLE_SCHEMA_POSTGRES@, 294, n);
}

/// The template `TABLE_SCHEMA_SQLITE` holds the placeholder at position 213, between
/// quotes, and nowhere else; filled with a table name it holds that name
/// verbatim in its place.
pub proof fn lemma_table_schema_sqlite_shape(n: Seq<char>)
    ensures
        occurs_at(TABLE_SCHEMA_SQLITE@, "_table_name_"@, 213),
        forall|i: int| i != 213 ==> !occurs_at(TABLE_SCHEMA_SQLITE@, "_table_name_"@, i),
        TABLE_SCHEMA_SQLITE@[212] == '\'' && TABLE_SCHEMA_SQLITE@[225] == '\'',
        for_table(TABLE_SCHEMA_SQLITE@, n) == TABLE_SCHEMA_SQLITE@.take(213) + n + TABLE_SCHEMA_SQLITE@.skip(225),
{
    reveal_strlit("_table_name_");
    reveal_strlit(r#"
                SELECT
                    name,
                    type,
                    CASE WHEN `notnull` = 0 THEN 1 else 0 END AS is_nullable
                FROM
                    PRAGMA_TABLE_INFO('_table_name_')
                "#);
    assert(TABLE_SCHEMA_SQLITE@.subrange(213, 225) =~= "_table_name_"@);
    assert forall|i: int| i != 213 implies !occurs_at(TABLE_SCHEMA_SQLITE@, "_table_name_"@, i) by {
        if occurs_at(TABLE_SCHEMA_SQLITE@, "_table_name_"@, i) {
            let w = TABLE_SCHEMA_SQLITE@.subrange(i, i + 12);
            assert(w[0] == '_' && w[1] == 't' && w[2] == 'a' && w[3] == 'b' && w[4] == 'l' && w[5] == 'e');
            assert(w[6] == '_' && w[7] == 'n' && w[8] == 'a' && w[9] == 'm' && w[10] == 'e' && w[11] == '_');
        }
    }
    lemma_fill_single(TABLE_SCHEMA_SQLITE@, 213, n);
}

/// The query `LIST_TABLES_MYSQL` holds no placeholder, so filling it with any table
/// name leaves it as it is.
pub proof fn lemma_list_tables_mysql_shape(n: Seq<char>)
    ensures
        !holds_placeholder(LIST_TABLES_MYSQL@),
        for_table(LIST_TABLES_MYSQL@, n) == LIST_TABLES_MYSQL@,
{
    reveal_strlit("_table_name_");
    reveal_strlit(r#"
                SHOW TABLES
                "#);
    assert forall|i: int| !occurs_at(LIST_TABLES_MYSQL@, "_table_name_"@, i) by {
        if occurs_at(LIST_TABLES_MYSQL@, "_table_name_"@, i) {
            let w = LIST_TABLES_MYSQL@.subrange(i, i + 12);
            assert(w[0] == '_' && w[1] == 't' && w[2] == 'a' && w[3] == 'b' && w[4] == 'l' && w[5] == 'e');
        }
    }
    lemma_replace_none(LIST_TABLES_MYSQL@, n);
}

/// The query `LIST_TABLES_POSTGRES` holds no placeholder, so filling it with any table
/// name leaves it as it is.
pub proof fn lemma_list_tables_postgres_shape(n: Seq<char>)
    ensures
        !holds_placeholder(LIST_TABLES_POSTGRES@),
        for_table(LIST_TABLES_POSTGRES@, n) == LIST_TABLES_POSTGRES@,
{
    reveal_strlit("_table_name_");
    reveal_strlit(r#"
                SELECT table_name
                FROM information_schema.tables
                WHERE table_schema='public'
                "#);
    assert forall|i: int| !occurs_at(LIST_TABLES_POSTGRES@, "_table_name_"@, i) by {
        if occurs_at(LIST_TABLES_POSTGRES@, "_table_name_"@, i) {
            let w = LIST_TABLES_POSTGRES@.subrange(i, i + 12);
            assert(w[0] == '_' && w[1] == 't' && w[2] == 'a' && w[3] == 'b' && w[4] == 'l' && w[5] == 'e');
        }
    }
    lemma_replace_none(LIST_TABLES_POSTGRES@, n);
}

/// The query `LIST_TABLES_SQLITE` holds no placeholder, so filling it with any table
/// name leaves it as it is.
pub proof fn lemma_list_tables_sqlite_shape(n: Seq<char>)
    ensures
        !holds_placeholder(LIST_TABLES_SQLITE@),
        for_table(LIST_TABLES_SQLITE@, n) == LIST_TABLES_SQLITE@,
{
    reveal_strlit("_table_name_");
    reveal_strlit(r#"
                SELECT name
                FROM sqlite_master
                WHERE type='table'
                "#);
    assert forall|i: int| !occurs_at(LIST_TABLES_SQLITE@, "_table_name_"@, i) by {
        if occurs_at(LIST_TABLES_SQLITE@, "_table_name_"@, i) {
            let w = LIST_TABLES_SQLITE@.subrange(i, i + 12);
            assert(w[0] == '_' && w[1] == 't' && w[2] == 'a' && w[3] == 'b' && w[4] == 'l' && w[5] == 'e');
        }
    }
    lemma_replace_none(LIST_TABLES_SQLITE@, n);
}

/// The template `PRIMARY_KEY_MYSQL` holds the placeholder at position 180, between
/// quotes, and nowhere else; filled with a table name it holds that name
/// verbatim in its place.
pub proof fn lemma_primary_key_mysql_shape(n: Seq<char>)
    ensures
        occurs_at(PRIMARY_KEY_MYSQL@, "_table_name_"@, 180),
        forall|i: int| i != 180 ==> !occurs_at(PRIMARY_KEY_MYSQL@, "_table_name_"@, i),
        PRIMARY_KEY_MYSQL@[179] == '\'' && PRIMARY_KEY_MYSQL@[192] == '\'',
        for_table(PRIMARY_KEY_MYSQL@, n) == PRIMARY_KEY_MYSQL@.take(180) + n + PRIMARY_KEY_MYSQL@.skip(192),
{
    reveal_strlit("_table_name_");
    reveal_strlit(r#"
                SELECT
                    COLUMN_NAME
                FROM
                    INFORMATION_SCHEMA.COLUMNS
                WHERE
                    TABLE_NAME = '_table_name_'
                    AND COLUMN_KEY = 'PRI'
                "#);
    assert(PRIMARY_KEY_MYSQL@.subrange(180, 192) =~= "_table_name_"@);
    assert forall|i: int| i != 180 implies !occurs_at(PRIMARY_KEY_MYSQL@, "_table_name_"@, i) by {
        if occurs_at(PRIMARY_KEY_MYSQL@, "_table_name_"@, i) {
            let w = PRIMARY_KEY_MYSQL@.subrange(i, i + 12);
            assert(w[0] == '_' && w[1] == 't' && w[2] == 'a' && w[3] == 'b' && w[4] == 'l' && w[5] == 'e');
            assert(w[6] == '_' && w[7] == 'n' && w[8] == 'a' && w[9] == 'm' && w[10] == 'e' && w[11] == '_');
        }
    }
    lemma_fill_single(PRIMARY_KEY_MYSQL@, 180, n);
}

/// The template `PRIMARY_KEY_POSTGRES` holds the placeholder at position 343, between
/// quotes, and nowhere else; filled with a table name it holds that name
/// verbatim in its place.
pub proof fn lemma_primary_key_postgres_shape(n: Seq<char>)
    ensures
        occurs_at(PRIMARY_KEY_POSTGRES@, "_table_name_"@, 343),
        forall|i: int| i != 343 ==> !occurs_at(PRIMARY_KEY_POSTGRES@, "_table_name_"@, i),
        PRIMARY_KEY_POSTGRES@[342] == '\'' && PRIMARY_KEY_POSTGRES@[355] == '\'',
        for_table(PRIMARY_KEY_POSTGRES@, n) == PRIMARY_KEY_POSTGRES@.take(343) + n + PRIMARY_KEY_POSTGRES@.skip(355),
{
    reveal_strlit("_table_name_");
    reveal_strlit(r#"
                SELECT
                    c.column_name
                FROM
                    information_schema.key_column_usage AS c
                LEFT JOIN information_schema.table_constraints AS t
                ON
                    t.constraint_name = c.constraint_name
                WHERE
                    t.table_name = '_table_name_'
                    AND t.constraint_type = 'PRIMARY KEY'
                "#);
    assert(PRIMARY_KEY_POSTGRES@.subrange(343, 355) =~= "_table_name_"@);
    assert forall|i: int| i != 343 implies !occurs_at(PRIMARY_KEY_POSTGRES@, "_table_name_"@, i) by {
        if occurs_at(PRIMARY_KEY_POSTGRES@, "_table_name_"@, i) {
            let w = PRIMARY_KEY_POSTGRES@.subrange(i, i + 12);
            assert(w[0] == '_' && w[1] == 't' && w[2] == 'a' && w[3] == 'b' && w[4] == 'l' && w[5] == 'e');
            assert(w[6] == '_' && w[7] == 'n' && w[8] == 'a' && w[9] == 'm' && w[10] == 'e' && w[11] == '_');
        }
    }
    lemma_fill_single(PRIMARY_KEY_POSTGRES@, 343, n);
}

/// The template `PRIMARY_KEY_SQLITE` holds the placeholder at position 111, between
/// quotes, and nowhere else; filled with a table name it holds that name
/// verbatim in its place.
pub proof fn lemma_primary_key_sqlite_shape(n: Seq<char>)
    ensures
        occurs_at(PRIMARY_KEY_SQLITE@, "_table_name_"@, 111),
        forall|i: int| i != 111 ==> !occurs_at(PRIMARY_KEY_SQLITE@, "_table_name_"@, i),
        PRIMARY_KEY_SQLITE@[110] == '"' && PRIMARY_KEY_SQLITE@[123] == '"',
        for_table(PRIMARY_KEY_SQLITE@, n) == PRIMARY_KEY_SQLITE@.take(111) + n + PRIMARY_KEY_SQLITE@.skip(123),
{
    reveal_strlit("_table_name_");
    reveal_strlit(r#"
                SELECT
                    l.name
                FROM
                    pragma_table_info("_table_name_") as l
                WHERE
                    l.pk = 1
                "#);
    assert(PRIMARY_KEY_SQLITE@.subrange(111, 123) =~= "_table_name_"@);
    assert forall|i: int| i != 111 implies !occurs_at(PRIMARY_KEY_SQLITE@, "_table_name_"@, i) by {
        if occurs_at(PRIMARY_KEY_SQLITE@, "_table_name_"@, i) {
            let w = PRIMARY_KEY_SQLITE@.subrange(i, i + 12);
            assert(w[0] == '_' && w[1] == 't' && w[2] == 'a' && w[3] == 'b' && w[4] == 'l' && w[5] == 'e');
            assert(w[6] == '_' && w[7] == 'n' && w[8] == 'a' && w[9] == 'm' && w[10] == 'e' && w[11] == '_');
        }
    }
    lemma_fill_single(PRIMARY_KEY_SQLITE@, 111, n);
}

} // verus!

verus! {

/// Filling a template replaces every placeholder by the table name exactly
/// as given, with no change to its characters.
pub proof fn lemma_for_table_is_verbatim(template: Seq<char>, n: Seq<char>)
    ensures
        for_table(template, n) == replace_all(template, "_table_name_"@, n),
{
}

/// The existence query of each dialect, for a table, is that dialect's own existence
/// template with the table's name, exactly as given, in the one place of
/// the placeholder.
pub proof fn lemma_check_table_query(b: SqlBuilder, n: Seq<char>)
    ensures
        b is Mysql ==> for_table(check_table_template(b), n) == CHECK_TABLE_MYSQL@.take(152) + n + CHECK_TABLE_MYSQL@.skip(164),
        b is Postgres ==> for_table(check_table_template(b), n) == CHECK_TABLE_POSTGRES@.take(152) + n + CHECK_TABLE_POSTGRES@.skip(164),
        b is Sqlite ==> for_table(check_table_template(b), n) == CHECK_TABLE_SQLITE@.take(171) + n + CHECK_TABLE_SQLITE@.skip(183),
{
    lemma_check_table_mysql_shape(n);
    lemma_check_table_postgres_shape(n);
    lemma_check_table_sqlite_shape(n);
}

/// The table-schema query of each dialect, for a table, is that dialect's own table-schema
/// template with the table's name, exactly as given, in the one place of
/// the placeholder.
pub proof fn lemma_check_table_schema_query(b: SqlBuilder, n: Seq<char>)
    ensures
        b is Mysql ==> for_table(table_schema_template(b), n) == TABLE_SCHEMA_MYSQL@.take(295) + n + TABLE_SCHEMA_MYSQL@.skip(307),
        b is Postgres ==> for_table(table_schema_template(b), n) == TABLE_SCHEMA_POSTGRES@.take(294) + n + TABLE_SCHEMA_POSTGRES@.skip(306),
        b is Sqlite ==> for_table(table_schema_template(b), n) == TABLE_SCHEMA_SQLITE@.take(213) + n + TABLE_SCHEMA_SQLITE@.skip(225),
{
    lemma_table_schema_mysql_shape(n);
    lemma_table_schema_postgres_shape(n);
    lemma_table_schema_sqlite_shape(n);
}

/// The primary-key query of each dialect, for a table, is that dialect's own primary-key
/// template with the table's name, exactly as given, in the one place of
/// the placeholder.
pub proof fn lemma_get_primary_key_query(b: SqlBuilder, n: Seq<char>)
    ensures
        b is Mysql ==> for_table(primary_key_template(b), n) == PRIMARY_KEY_MYSQL@.take(180) + n + PRIMARY_KEY_MYSQL@.skip(192),
        b is Postgres ==> for_table(primary_key_template(b), n) == PRIMARY_KEY_POSTGRES@.take(343) + n + PRIMARY_KEY_POSTGRES@.skip(355),
        b is Sqlite ==> for_table(primary_key_template(b), n) == PRIMARY_KEY_SQLITE@.take(111) + n + PRIMARY_KEY_SQLITE@.skip(123),
{
    lemma_primary_key_mysql_shape(n);
    lemma_primary_key_postgres_shape(n);
    lemma_primary_key_sqlite_shape(n);
}

/// The table-list query of each dialect is that dialect's own table-list
/// query; it holds no table-name placeholder and does not depend on any
/// table name.
pub proof fn lemma_list_tables_query(b: SqlBuilder, n: Seq<char>)
    ensures
        b is Mysql ==> list_tables_query(b) == LIST_TABLES_MYSQL@,
        b is Postgres ==> list_tables_query(b) == LIST_TABLES_POSTGRES@,
        b is Sqlite ==> list_tables_query(b) == LIST_TABLES_SQLITE@,
        !holds_placeholder(list_tables_query(b)),
        for_table(list_tables_query(b), n) == list_tables_query(b),
{
    lemma_list_tables_mysql_shape(n);
    lemma_list_tables_postgres_shape(n);
    lemma_list_tables_sqlite_shape(n);
}

} // verus!
