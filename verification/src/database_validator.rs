//! Validation of the database: whether it was initialised and how many
//! migrations were applied. The queries are the caller's; what their
//! answers mean is decided here.

use crate::text::{decimal, join, joined, push_decimal};
use vstd::prelude::*;
use vstd::string::*;

verus! {

/// Why validation could not be carried out.
#[derive(Debug, PartialEq, Eq)]
pub enum DatabaseValidationError {
    /// The store failed; the text is its message.
    Database(String),
    MigrationsOutOfDate(String),
    NotInitialized,
}

impl DatabaseValidationError {
    /// The error as a line of text.
    pub open spec fn message_spec(&self) -> Seq<char> {
        match self {
            DatabaseValidationError::Database(m) => "database error: "@ + m@,
            DatabaseValidationError::MigrationsOutOfDate(m) => "migrations not up to date: "@ + m@,
            DatabaseValidationError::NotInitialized => "database not initialized"@,
        }
    }

    /// The error as a line of text.
    pub fn message(&self) -> (r: String)
        ensures
            r@ == self.message_spec(),
    {
        match self {
            DatabaseValidationError::Database(m) => String::from_str("database error: ").concat(
                m.as_str(),
            ),
            DatabaseValidationError::MigrationsOutOfDate(m) => String::from_str(
                "migrations not up to date: ",
            ).concat(m.as_str()),
            DatabaseValidationError::NotInitialized => String::from_str("database not initialized"),
        }
    }
}

/// Result of database validation.
#[derive(Debug, PartialEq, Eq)]
pub struct ValidationResult {
    pub is_initialized: bool,
    pub migrations_applied: usize,
    pub pending_migrations: Vec<String>,
    pub warnings: Vec<String>,
}

/// The mathematical value of a [`ValidationResult`].
#[verifier::ext_equal]
pub struct ValidationResultView {
    pub is_initialized: bool,
    pub migrations_applied: usize,
    pub pending_migrations: Seq<Seq<char>>,
    pub warnings: Seq<Seq<char>>,
}

impl ValidationResultView {
    /// Validation passed without issues.
    pub open spec fn is_ok(self) -> bool {
        self.is_initialized && self.warnings.len() == 0
    }

    /// The result as a line of text.
    pub open spec fn summary(self) -> Seq<char> {
        if !self.is_initialized {
            "Database not initialized - migrations need to be run"@
        } else if self.warnings.len() > 0 {
            "Database validation warnings: "@ + joined(self.warnings, ", "@)
        } else {
            "Database OK - "@ + decimal(self.migrations_applied as int) + " migrations applied"@
        }
    }

    /// The result for a database without a migrations table.
    pub open spec fn uninitialized() -> ValidationResultView {
        ValidationResultView {
            is_initialized: false,
            migrations_applied: 0,
            pending_migrations: Seq::empty(),
            warnings: seq!["Database has not been initialized. Run migrations."@],
        }
    }

    /// The result for a database with `applied` successful migrations.
    pub open spec fn initialized(applied: usize) -> ValidationResultView {
        ValidationResultView {
            is_initialized: true,
            migrations_applied: applied,
            pending_migrations: Seq::empty(),
            warnings: Seq::empty(),
        }
    }
}

impl DeepView for ValidationResult {
    type V = ValidationResultView;

    open spec fn deep_view(&self) -> ValidationResultView {
        ValidationResultView {
            is_initialized: self.is_initialized,
            migrations_applied: self.migrations_applied,
            pending_migrations: self.pending_migrations.deep_view(),
            warnings: self.warnings.deep_view(),
        }
    }
}

impl View for ValidationResult {
    type V = ValidationResultView;

    open spec fn view(&self) -> ValidationResultView {
        self.deep_view()
    }
}

impl ValidationResult {
    /// Check if validation passed without issues.
    pub fn is_ok(&self) -> (r: bool)
        ensures
            r == self@.is_ok(),
    {
        self.is_initialized && self.warnings.len() == 0
    }

    /// Get a summary message.
    pub fn summary(&self) -> (r: String)
        ensures
            r@ == self@.summary(),
    {
        if !self.is_initialized {
            String::from_str("Database not initialized - migrations need to be run")
        } else if self.warnings.len() > 0 {
            let list = join(&self.warnings, ", ");
            String::from_str("Database validation warnings: ").concat(list.as_str())
        } else {
            let mut out = String::from_str("Database OK - ");
            push_decimal(&mut out, self.migrations_applied as i128);
            out.append(" migrations applied");
            out
        }
    }

    /// The result for a database without a migrations table.
    pub fn uninitialized() -> (r: Self)
        ensures
            r@ == ValidationResultView::uninitialized(),
    {
        let mut warnings: Vec<String> = Vec::new();
        warnings.push(String::from_str("Database has not been initialized. Run migrations."));
        let r = ValidationResult {
            is_initialized: false,
            migrations_applied: 0,
            pending_migrations: Vec::new(),
            warnings,
        };
        proof {
            assert(r@.warnings =~= ValidationResultView::uninitialized().warnings);
            assert(r@.pending_migrations =~= Seq::<Seq<char>>::empty());
        }
        r
    }

    /// The result for a database with `applied` successful migrations.
    pub fn initialized(applied: usize) -> (r: Self)
        ensures
            r@ == ValidationResultView::initialized(applied),
    {
        let r = ValidationResult {
            is_initialized: true,
            migrations_applied: applied,
            pending_migrations: Vec::new(),
            warnings: Vec::new(),
        };
        proof {
            assert(r@.warnings =~= Seq::<Seq<char>>::empty());
            assert(r@.pending_migrations =~= Seq::<Seq<char>>::empty());
        }
        r
    }
}

/// How many tables the database holds under a name.
#[derive(Debug, PartialEq, Eq)]
pub struct TableCount {
    pub name: String,
    pub count: i64,
}

/// The mathematical value of a [`TableCount`].
pub struct TableCountView {
    pub name: Seq<char>,
    pub count: i64,
}

impl DeepView for TableCount {
    type V = TableCountView;

    open spec fn deep_view(&self) -> TableCountView {
        TableCountView { name: self.name@, count: self.count }
    }
}

impl View for TableCount {
    type V = TableCountView;

    open spec fn view(&self) -> TableCountView {
        self.deep_view()
    }
}

/// The names for which no table was counted, in their order.
pub open spec fn missing(found: Seq<TableCountView>) -> Seq<Seq<char>> {
    found.filter(|t: TableCountView| t.count <= 0).map_values(|t: TableCountView| t.name)
}

/// Decides what the validator's queries mean.
#[derive(Debug, PartialEq, Eq)]
pub struct DatabaseValidator {}

impl DatabaseValidator {
    /// The verdict on a database in which `migration_tables` tables carry
    /// the name of the migrations table: `Some` with the result where the
    /// database was never initialised, `None` where the applied migrations
    /// are to be counted next.
    pub fn check_initialized(migration_tables: i64) -> (r: Option<ValidationResult>)
        ensures
            migration_tables > 0 ==> r.is_none(),
            migration_tables <= 0 ==> r.is_some() && r.unwrap()@
                == ValidationResultView::uninitialized(),
    {
        if migration_tables > 0 {
            None
        } else {
            Some(ValidationResult::uninitialized())
        }
    }

    /// The names of the required tables that the database lacks: those
    /// for which the count of tables is zero.
    pub fn validate_tables(found: &Vec<TableCount>) -> (r: Vec<String>)
        ensures
            r.deep_view() == missing(found.deep_view()),
    {
        let mut out: Vec<String> = Vec::new();
        let mut i: usize = 0;
        let ghost all = found.deep_view();
        let ghost absent = |t: TableCountView| t.count <= 0;
        let ghost name = |t: TableCountView| t.name;
        proof {
            reveal(Seq::filter);
            assert(all.take(0) =~= Seq::<TableCountView>::empty());
            assert(out.deep_view() =~= all.take(0).filter(absent).map_values(name));
        }
        while i < found.len()
            invariant
                i <= found.len(),
                all == found.deep_view(),
                absent == |t: TableCountView| t.count <= 0,
                name == |t: TableCountView| t.name,
                out.deep_view() == all.take(i as int).filter(absent).map_values(name),
            decreases found.len() - i,
        {
            let ghost before = out.deep_view();
            proof {
                reveal(Seq::filter);
                assert(all.take(i + 1).drop_last() =~= all.take(i as int));
                assert(all.take(i + 1).last() == found@[i as int]@);
            }
            if found[i].count <= 0 {
                out.push(found[i].name.clone());
                proof {
                    assert(out.deep_view() =~= before.push(found@[i as int]@.name));
                    assert(all.take(i + 1).filter(absent) == all.take(i as int).filter(
                        absent,
                    ).push(found@[i as int]@));
                    assert(all.take(i + 1).filter(absent).map_values(name) =~= before.push(
                        found@[i as int]@.name,
                    ));
                }
            }
            i = i + 1;
        }
        proof {
            assert(all.take(found.len() as int) =~= all);
        }
        out
    }
}

} // verus!
