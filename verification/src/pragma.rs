//! The pragma policy table.
//!
//! Pragma statements straddle "read" and "write": some are safe on any node,
//! some are semantically read-only but must see the authoritative database
//! state on the primary, some are connection settings that may only be read
//! (never set) through the routing layer, and some are denied outright.  The
//! table below places every supported pragma name into exactly one tier; any
//! other name is unsupported.

use vstd::prelude::*;

use crate::kind::StmtKind;
use crate::text::str_eq;

verus! {

/// The tier a pragma name falls into.  Every name belongs to exactly one
/// tier; names outside the table are `Unknown`.
#[derive(Debug, PartialEq, Eq, Clone, Copy, Structural)]
pub enum PragmaTier {
    /// Purely informational reads (and `encoding`): safe on primary or
    /// replica.
    Informational,
    /// Reads of whole-database state: read-only, but only the primary holds
    /// the authoritative state they must see.
    PrimaryRead,
    /// Connection/engine configuration: a safe getter without an argument,
    /// unsupported with one.
    Config,
    /// Denied unconditionally: side effects incompatible with routed
    /// execution.
    Denied,
    /// Not in the table.
    Unknown,
}

/// Tier of purely informational pragmas, servable by primary or replicas,
/// together with `encoding`, which is effectively read-only for connections
/// that already created a database.
pub open spec fn informational_pragma(n: Seq<char>) -> bool {
    ||| n == "table_list"@
    ||| n == "index_list"@
    ||| n == "table_info"@
    ||| n == "table_xinfo"@
    ||| n == "index_xinfo"@
    ||| n == "pragma_list"@
    ||| n == "compile_options"@
    ||| n == "database_list"@
    ||| n == "function_list"@
    ||| n == "module_list"@
    ||| n == "encoding"@
}

/// Tier of whole-database-state reads, always served by the primary.
pub open spec fn primary_read_pragma(n: Seq<char>) -> bool {
    ||| n == "foreign_key"@
    ||| n == "foreign_key_list"@
    ||| n == "foreign_key_check"@
    ||| n == "collation_list"@
    ||| n == "data_version"@
    ||| n == "freelist_count"@
    ||| n == "integrity_check"@
    ||| n == "legacy_file_format"@
    ||| n == "page_count"@
    ||| n == "quick_check"@
    ||| n == "stats"@
}

/// Tier of connection/engine configuration pragmas, served by the primary
/// only when no argument is given.
pub open spec fn config_pragma(n: Seq<char>) -> bool {
    ||| n == "analysis_limit"@
    ||| n == "application_id"@
    ||| n == "auto_vacuum"@
    ||| n == "automatic_index"@
    ||| n == "busy_timeout"@
    ||| n == "cache_size"@
    ||| n == "cache_spill"@
    ||| n == "cell_size_check"@
    ||| n == "checkpoint_fullfsync"@
    ||| n == "defer_foreign_keys"@
    ||| n == "fullfsync"@
    ||| n == "hard_heap_limit"@
    ||| n == "journal_mode"@
    ||| n == "journal_size_limit"@
    ||| n == "legacy_alter_table"@
    ||| n == "locking_mode"@
    ||| n == "max_page_count"@
    ||| n == "mmap_size"@
    ||| n == "page_size"@
    ||| n == "query_only"@
    ||| n == "read_uncommitted"@
    ||| n == "recursive_triggers"@
    ||| n == "reverse_unordered_selects"@
    ||| n == "schema_version"@
    ||| n == "secure_delete"@
    ||| n == "soft_heap_limit"@
    ||| n == "synchronous"@
    ||| n == "temp_store"@
    ||| n == "threads"@
    ||| n == "trusted_schema"@
    ||| n == "user_version"@
    ||| n == "wal_autocheckpoint"@
}

/// Tier of pragmas that change the state of the connection and cannot be
/// allowed through the routing layer.
pub open spec fn denied_pragma(n: Seq<char>) -> bool {
    ||| n == "case_sensitive_like"@
    ||| n == "ignore_check_constraints"@
    ||| n == "incremental_vacuum"@
    ||| n == "optimize"@
    ||| n == "parser_trace"@
    ||| n == "shrink_memory"@
    ||| n == "wal_checkpoint"@
}

/// The four tiers name disjoint sets of pragmas: a supported name sits in
/// exactly one of them, so the order the table is consulted in never decides
/// a pragma's category.
#[verifier::rlimit(100)]
pub proof fn lemma_tiers_disjoint(n: Seq<char>)
    ensures
        informational_pragma(n) ==> !primary_read_pragma(n) && !config_pragma(n)
            && !denied_pragma(n),
        primary_read_pragma(n) ==> !config_pragma(n) && !denied_pragma(n),
        config_pragma(n) ==> !denied_pragma(n),
{
    reveal_strlit("table_list");
    reveal_strlit("index_list");
    reveal_strlit("table_info");
    reveal_strlit("table_xinfo");
    reveal_strlit("index_xinfo");
    reveal_strlit("pragma_list");
    reveal_strlit("compile_options");
    reveal_strlit("database_list");
    reveal_strlit("function_list");
    reveal_strlit("module_list");
    reveal_strlit("encoding");
    reveal_strlit("foreign_key");
    reveal_strlit("foreign_key_list");
    reveal_strlit("foreign_key_check");
    reveal_strlit("collation_list");
    reveal_strlit("data_version");
    reveal_strlit("freelist_count");
    reveal_strlit("integrity_check");
    reveal_strlit("legacy_file_format");
    reveal_strlit("page_count");
    reveal_strlit("quick_check");
    reveal_strlit("stats");
    reveal_strlit("analysis_limit");
    reveal_strlit("application_id");
    reveal_strlit("auto_vacuum");
    reveal_strlit("automatic_index");
    reveal_strlit("busy_timeout");
    reveal_strlit("cache_size");
    reveal_strlit("cache_spill");
    reveal_strlit("cell_size_check");
    reveal_strlit("checkpoint_fullfsync");
    reveal_strlit("defer_foreign_keys");
    reveal_strlit("fullfsync");
    reveal_strlit("hard_heap_limit");
    reveal_strlit("journal_mode");
    reveal_strlit("journal_size_limit");
    reveal_strlit("legacy_alter_table");
    reveal_strlit("locking_mode");
    reveal_strlit("max_page_count");
    reveal_strlit("mmap_size");
    reveal_strlit("page_size");
    reveal_strlit("query_only");
    reveal_strlit("read_uncommitted");
    reveal_strlit("recursive_triggers");
    reveal_strlit("reverse_unordered_selects");
    reveal_strlit("schema_version");
    reveal_strlit("secure_delete");
    reveal_strlit("soft_heap_limit");
    reveal_strlit("synchronous");
    reveal_strlit("temp_store");
    reveal_strlit("threads");
    reveal_strlit("trusted_schema");
    reveal_strlit("user_version");
    reveal_strlit("wal_autocheckpoint");
    reveal_strlit("case_sensitive_like");
    reveal_strlit("ignore_check_constraints");
    reveal_strlit("incremental_vacuum");
    reveal_strlit("optimize");
    reveal_strlit("parser_trace");
    reveal_strlit("shrink_memory");
    reveal_strlit("wal_checkpoint");
    // Naming each literal's length, and a distinguishing character where two
    // names share a length, lets the solver tell all the names apart.
    assert(("table_list"@).len() == 10 && ("table_list"@)[0] == 't' && ("table_list"@)[1] == 'a');
    assert(("index_list"@).len() == 10 && ("index_list"@)[0] == 'i');
    assert(("table_info"@).len() == 10 && ("table_info"@)[0] == 't' && ("table_info"@)[1] == 'a');
    assert(("table_xinfo"@).len() == 11 && ("table_xinfo"@)[0] == 't');
    assert(("index_xinfo"@).len() == 11 && ("index_xinfo"@)[0] == 'i');
    assert(("pragma_list"@).len() == 11 && ("pragma_list"@)[0] == 'p');
    assert(("compile_options"@).len() == 15 && ("compile_options"@)[0] == 'c' && ("compile_options"@)[1] == 'o');
    assert(("database_list"@).len() == 13 && ("database_list"@)[0] == 'd');
    assert(("function_list"@).len() == 13 && ("function_list"@)[0] == 'f');
    assert(("module_list"@).len() == 11 && ("module_list"@)[0] == 'm');
    assert(("encoding"@).len() == 8 && ("encoding"@)[0] == 'e');
    assert(("foreign_key"@).len() == 11 && ("foreign_key"@)[0] == 'f');
    assert(("foreign_key_list"@).len() == 16 && ("foreign_key_list"@)[0] == 'f');
    assert(("foreign_key_check"@).len() == 17);
    assert(("collation_list"@).len() == 14 && ("collation_list"@)[0] == 'c');
    assert(("data_version"@).len() == 12 && ("data_version"@)[0] == 'd');
    assert(("freelist_count"@).len() == 14 && ("freelist_count"@)[0] == 'f');
    assert(("integrity_check"@).len() == 15 && ("integrity_check"@)[0] == 'i');
    assert(("legacy_file_format"@).len() == 18 && ("legacy_file_format"@)[0] == 'l' && ("legacy_file_format"@)[7] == 'f');
    assert(("page_count"@).len() == 10 && ("page_count"@)[0] == 'p');
    assert(("quick_check"@).len() == 11 && ("quick_check"@)[0] == 'q');
    assert(("stats"@).len() == 5);
    assert(("analysis_limit"@).len() == 14 && ("analysis_limit"@)[0] == 'a');
    assert(("application_id"@).len() == 14 && ("application_id"@)[0] == 'a');
    assert(("auto_vacuum"@).len() == 11 && ("auto_vacuum"@)[0] == 'a');
    assert(("automatic_index"@).len() == 15 && ("automatic_index"@)[0] == 'a');
    assert(("busy_timeout"@).len() == 12 && ("busy_timeout"@)[0] == 'b');
    assert(("cache_size"@).len() == 10 && ("cache_size"@)[0] == 'c');
    assert(("cache_spill"@).len() == 11 && ("cache_spill"@)[0] == 'c');
    assert(("cell_size_check"@).len() == 15 && ("cell_size_check"@)[0] == 'c' && ("cell_size_check"@)[1] == 'e');
    assert(("checkpoint_fullfsync"@).len() == 20);
    assert(("defer_foreign_keys"@).len() == 18 && ("defer_foreign_keys"@)[0] == 'd');
    assert(("fullfsync"@).len() == 9);
    assert(("hard_heap_limit"@).len() == 15 && ("hard_heap_limit"@)[0] == 'h');
    assert(("journal_mode"@).len() == 12 && ("journal_mode"@)[0] == 'j');
    assert(("journal_size_limit"@).len() == 18 && ("journal_size_limit"@)[0] == 'j');
    assert(("legacy_alter_table"@).len() == 18 && ("legacy_alter_table"@)[0] == 'l' && ("legacy_alter_table"@)[7] == 'a');
    assert(("locking_mode"@).len() == 12 && ("locking_mode"@)[0] == 'l');
    assert(("max_page_count"@).len() == 14 && ("max_page_count"@)[0] == 'm');
    assert(("mmap_size"@).len() == 9);
    assert(("page_size"@).len() == 9);
    assert(("query_only"@).len() == 10 && ("query_only"@)[0] == 'q');
    assert(("read_uncommitted"@).len() == 16 && ("read_uncommitted"@)[0] == 'r');
    assert(("recursive_triggers"@).len() == 18 && ("recursive_triggers"@)[0] == 'r');
    assert(("reverse_unordered_selects"@).len() == 25);
    assert(("schema_version"@).len() == 14 && ("schema_version"@)[0] == 's');
    assert(("secure_delete"@).len() == 13 && ("secure_delete"@)[0] == 's' && ("secure_delete"@)[1] == 'e');
    assert(("soft_heap_limit"@).len() == 15 && ("soft_heap_limit"@)[0] == 's');
    assert(("synchronous"@).len() == 11 && ("synchronous"@)[0] == 's');
    assert(("temp_store"@).len() == 10 && ("temp_store"@)[0] == 't' && ("temp_store"@)[1] == 'e');
    assert(("threads"@).len() == 7);
    assert(("trusted_schema"@).len() == 14 && ("trusted_schema"@)[0] == 't');
    assert(("user_version"@).len() == 12 && ("user_version"@)[0] == 'u');
    assert(("wal_autocheckpoint"@).len() == 18 && ("wal_autocheckpoint"@)[0] == 'w');
    assert(("case_sensitive_like"@).len() == 19);
    assert(("ignore_check_constraints"@).len() == 24);
    assert(("incremental_vacuum"@).len() == 18 && ("incremental_vacuum"@)[0] == 'i');
    assert(("optimize"@).len() == 8 && ("optimize"@)[0] == 'o');
    assert(("parser_trace"@).len() == 12 && ("parser_trace"@)[0] == 'p');
    assert(("shrink_memory"@).len() == 13 && ("shrink_memory"@)[0] == 's' && ("shrink_memory"@)[1] == 'h');
    assert(("wal_checkpoint"@).len() == 14 && ("wal_checkpoint"@)[0] == 'w');
    if primary_read_pragma(n) {
        assert(!config_pragma(n));
        assert(!denied_pragma(n));
    }
    if config_pragma(n) {
        assert(!denied_pragma(n));
    }
}

/// The tier a pragma name falls into, by exact name match, first tier wins.
pub open spec fn spec_pragma_tier(n: Seq<char>) -> PragmaTier {
    if informational_pragma(n) {
        PragmaTier::Informational
    } else if primary_read_pragma(n) {
        PragmaTier::PrimaryRead
    } else if config_pragma(n) {
        PragmaTier::Config
    } else if denied_pragma(n) {
        PragmaTier::Denied
    } else {
        PragmaTier::Unknown
    }
}

/// The routing category of a pragma, from its tier and whether it carries an
/// argument; `None` means the pragma is unsupported.
pub open spec fn spec_pragma_kind(n: Seq<char>, has_body: bool) -> Option<StmtKind> {
    match spec_pragma_tier(n) {
        PragmaTier::Informational => Some(StmtKind::Read),
        PragmaTier::PrimaryRead => Some(StmtKind::Write),
        PragmaTier::Config => if has_body {
            None
        } else {
            Some(StmtKind::Write)
        },
        PragmaTier::Denied => None,
        PragmaTier::Unknown => None,
    }
}

fn is_informational(name: &str) -> (r: bool)
    ensures
        r == informational_pragma(name@),
{
    str_eq(name, "table_list") || str_eq(name, "index_list") || str_eq(name, "table_info")
        || str_eq(name, "table_xinfo") || str_eq(name, "index_xinfo") || str_eq(
        name,
        "pragma_list",
    ) || str_eq(name, "compile_options") || str_eq(name, "database_list") || str_eq(
        name,
        "function_list",
    ) || str_eq(name, "module_list") || str_eq(name, "encoding")
}

fn is_primary_read(name: &str) -> (r: bool)
    ensures
        r == primary_read_pragma(name@),
{
    str_eq(name, "foreign_key") || str_eq(name, "foreign_key_list") || str_eq(
        name,
        "foreign_key_check",
    ) || str_eq(name, "collation_list") || str_eq(name, "data_version") || str_eq(
        name,
        "freelist_count",
    ) || str_eq(name, "integrity_check") || str_eq(name, "legacy_file_format") || str_eq(
        name,
        "page_count",
    ) || str_eq(name, "quick_check") || str_eq(name, "stats")
}

fn is_config(name: &str) -> (r: bool)
    ensures
        r == config_pragma(name@),
{
    str_eq(name, "analysis_limit") || str_eq(name, "application_id") || str_eq(name, "auto_vacuum")
        || str_eq(name, "automatic_index") || str_eq(name, "busy_timeout") || str_eq(
        name,
        "cache_size",
    ) || str_eq(name, "cache_spill") || str_eq(name, "cell_size_check") || str_eq(
        name,
        "checkpoint_fullfsync",
    ) || str_eq(name, "defer_foreign_keys") || str_eq(name, "fullfsync") || str_eq(
        name,
        "hard_heap_limit",
    ) || str_eq(name, "journal_mode") || str_eq(name, "journal_size_limit") || str_eq(
        name,
        "legacy_alter_table",
    ) || str_eq(name, "locking_mode") || str_eq(name, "max_page_count") || str_eq(
        name,
        "mmap_size",
    ) || str_eq(name, "page_size") || str_eq(name, "query_only") || str_eq(
        name,
        "read_uncommitted",
    ) || str_eq(name, "recursive_triggers") || str_eq(name, "reverse_unordered_selects") || str_eq(
        name,
        "schema_version",
    ) || str_eq(name, "secure_delete") || str_eq(name, "soft_heap_limit") || str_eq(
        name,
        "synchronous",
    ) || str_eq(name, "temp_store") || str_eq(name, "threads") || str_eq(name, "trusted_schema")
        || str_eq(name, "user_version") || str_eq(name, "wal_autocheckpoint")
}

fn is_denied(name: &str) -> (r: bool)
    ensures
        r == denied_pragma(name@),
{
    str_eq(name, "case_sensitive_like") || str_eq(name, "ignore_check_constraints") || str_eq(
        name,
        "incremental_vacuum",
    ) || str_eq(name, "optimize") || str_eq(name, "parser_trace") || str_eq(name, "shrink_memory")
        || str_eq(name, "wal_checkpoint")
}

/// Place a pragma name into its tier.  A caller that wants to report unknown
/// pragmas to a diagnostics sink can test the result for `Unknown`.
pub fn pragma_tier(name: &str) -> (t: PragmaTier)
    ensures
        t == spec_pragma_tier(name@),
{
    if is_informational(name) {
        PragmaTier::Informational
    } else if is_primary_read(name) {
        PragmaTier::PrimaryRead
    } else if is_config(name) {
        PragmaTier::Config
    } else if is_denied(name) {
        PragmaTier::Denied
    } else {
        PragmaTier::Unknown
    }
}

} // verus!
