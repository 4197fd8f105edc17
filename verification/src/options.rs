//! The three bundles of options as the caller gives them, the strict records
//! that the engine takes, and the functions that turn the first into the
//! second.
//!
//! The caller may leave any field out. Each field then has one documented
//! default, and no field is dropped or given a value of another kind on its
//! way to the engine.

use crate::error::BindingError;
use std::collections::HashMap;
use vstd::prelude::*;
use vstd::std_specs::convert::FromSpec;

verus! {

/// How the engine compresses the blocks it writes.
#[derive(Clone, Copy, Debug, PartialEq, Eq, Structural)]
pub enum Compression {
    /// Blocks are written as they are.
    No,
    /// Blocks are written with the engine's fast built-in compressor.
    Snappy,
}

/// The caller's value where it gave one, else the field's default.
pub open spec fn value_or(given: Option<bool>, default: bool) -> bool {
    match given {
        Some(v) => v,
        None => default,
    }
}

/// The compressor that the caller's switch stands for.
pub open spec fn compression_of(enabled: bool) -> Compression {
    if enabled {
        Compression::Snappy
    } else {
        Compression::No
    }
}

/// The options for opening a database, as the caller states them.
#[derive(Clone, Copy, Debug, PartialEq, Eq)]
pub struct PyOpenOptions {
    /// Create the database if it is missing. Default: false.
    pub create_if_missing: bool,
    /// Report an error if the database already exists. Default: false.
    pub error_if_exists: bool,
    /// Report an error as soon as corruption is detected. Default: false.
    pub paranoid_checks: bool,
    /// The size of the write buffer, where the engine's own is not wanted.
    pub write_buffer_size: Option<usize>,
    /// The most files the engine keeps open, where its own limit is not wanted.
    pub max_open_files: Option<i32>,
    /// The size of a block, where the engine's own is not wanted.
    pub block_size: Option<usize>,
    /// The distance between restart points, where the engine's own is not wanted.
    pub block_restart_interval: Option<i32>,
    /// Whether blocks are compressed. Default: false.
    pub compression: bool,
    /// The budget in bytes of a block cache for reads. Default: no cache.
    pub cache: Option<usize>,
}

impl PyOpenOptions {
    /// The record that `new` makes of its arguments.
    pub open spec fn spec_new(
        create_if_missing: Option<bool>,
        error_if_exists: Option<bool>,
        paranoid_checks: Option<bool>,
        write_buffer_size: Option<usize>,
        max_open_files: Option<i32>,
        block_size: Option<usize>,
        block_restart_interval: Option<i32>,
        compression: Option<bool>,
        cache: Option<usize>,
    ) -> PyOpenOptions {
        PyOpenOptions {
            create_if_missing: value_or(create_if_missing, false),
            error_if_exists: value_or(error_if_exists, false),
            paranoid_checks: value_or(paranoid_checks, false),
            write_buffer_size,
            max_open_files,
            block_size,
            block_restart_interval,
            compression: value_or(compression, false),
            cache,
        }
    }

    /// Makes the record from what the caller gave. A switch that was left out
    /// is off; an override that was left out stays unset.
    pub fn new(
        create_if_missing: Option<bool>,
        error_if_exists: Option<bool>,
        paranoid_checks: Option<bool>,
        write_buffer_size: Option<usize>,
        max_open_files: Option<i32>,
        block_size: Option<usize>,
        block_restart_interval: Option<i32>,
        compression: Option<bool>,
        cache: Option<usize>,
    ) -> (o: Self)
        ensures
            o == Self::spec_new(
                create_if_missing,
                error_if_exists,
                paranoid_checks,
                write_buffer_size,
                max_open_files,
                block_size,
                block_restart_interval,
                compression,
                cache,
            ),
    {
        PyOpenOptions {
            create_if_missing: create_if_missing.unwrap_or(false),
            error_if_exists: error_if_exists.unwrap_or(false),
            paranoid_checks: paranoid_checks.unwrap_or(false),
            write_buffer_size,
            max_open_files,
            block_size,
            block_restart_interval,
            compression: compression.unwrap_or(false),
            cache,
        }
    }
}

/// The options that the engine takes when it opens a database.
#[derive(Clone, Copy, Debug, PartialEq, Eq)]
pub struct Options {
    /// Create the database if it is missing.
    pub create_if_missing: bool,
    /// Fail if the database already exists.
    pub error_if_exists: bool,
    /// Fail as soon as corruption is detected.
    pub paranoid_checks: bool,
    /// The size of the write buffer; `None` leaves the engine's own.
    pub write_buffer_size: Option<usize>,
    /// The most files kept open; `None` leaves the engine's own.
    pub max_open_files: Option<i32>,
    /// The size of a block; `None` leaves the engine's own.
    pub block_size: Option<usize>,
    /// The distance between restart points; `None` leaves the engine's own.
    pub block_restart_interval: Option<i32>,
    /// The compressor for written blocks.
    pub compression: Compression,
    /// The size in bytes of the block cache that the engine is given; with
    /// `None` no cache is made for it at all.
    pub cache: Option<usize>,
}

impl Options {
    /// The engine's documented defaults.
    pub open spec fn defaults() -> Options {
        Options {
            create_if_missing: false,
            error_if_exists: false,
            paranoid_checks: false,
            write_buffer_size: None,
            max_open_files: None,
            block_size: None,
            block_restart_interval: None,
            compression: Compression::No,
            cache: None,
        }
    }

    /// Options with every field at its default.
    pub fn new() -> (o: Self)
        ensures
            o == Self::defaults(),
    {
        Options {
            create_if_missing: false,
            error_if_exists: false,
            paranoid_checks: false,
            write_buffer_size: None,
            max_open_files: None,
            block_size: None,
            block_restart_interval: None,
            compression: Compression::No,
            cache: None,
        }
    }
}

impl From<PyOpenOptions> for Options {
    /// Carries every field over as it is. Two fields change their form: the
    /// compression switch becomes a compressor, and the cache budget becomes
    /// the size of the cache to make.
    fn from(py_options: PyOpenOptions) -> (options: Self) {
        let mut options = Options::new();
        options.create_if_missing = py_options.create_if_missing;
        options.error_if_exists = py_options.error_if_exists;
        options.paranoid_checks = py_options.paranoid_checks;
        options.write_buffer_size = py_options.write_buffer_size;
        options.max_open_files = py_options.max_open_files;
        options.block_size = py_options.block_size;
        options.block_restart_interval = py_options.block_restart_interval;
        options.compression = if py_options.compression {
            Compression::Snappy
        } else {
            Compression::No
        };
        options.cache = py_options.cache;
        options
    }
}

impl vstd::std_specs::convert::FromSpecImpl<PyOpenOptions> for Options {
    open spec fn obeys_from_spec() -> bool {
        true
    }

    open spec fn from_spec(py_options: PyOpenOptions) -> Options {
        Options {
            create_if_missing: py_options.create_if_missing,
            error_if_exists: py_options.error_if_exists,
            paranoid_checks: py_options.paranoid_checks,
            write_buffer_size: py_options.write_buffer_size,
            max_open_files: py_options.max_open_files,
            block_size: py_options.block_size,
            block_restart_interval: py_options.block_restart_interval,
            compression: compression_of(py_options.compression),
            cache: py_options.cache,
        }
    }
}

/// The options for a read, as the caller states them.
#[derive(Clone, Copy, Debug, PartialEq, Eq)]
pub struct PyReadOptions {
    /// Verify the stored checksums on read. Default: false.
    pub verify_checksums: bool,
    /// Keep what was read in the engine's cache. Default: true.
    pub fill_cache: bool,
}

impl PyReadOptions {
    /// The record that `new` makes of its arguments.
    pub open spec fn spec_new(verify_checksums: Option<bool>, fill_cache: Option<bool>) -> PyReadOptions {
        PyReadOptions {
            verify_checksums: value_or(verify_checksums, false),
            fill_cache: value_or(fill_cache, true),
        }
    }

    /// Makes the record from what the caller gave. Checksums are not verified
    /// and the cache is filled unless the caller says otherwise.
    pub fn new(verify_checksums: Option<bool>, fill_cache: Option<bool>) -> (o: Self)
        ensures
            o == Self::spec_new(verify_checksums, fill_cache),
    {
        PyReadOptions {
            verify_checksums: verify_checksums.unwrap_or(false),
            fill_cache: fill_cache.unwrap_or(true),
        }
    }
}

/// The options that the engine takes for a read. A read is never based on a
/// snapshot: it sees the database as it is.
#[derive(Clone, Copy, Debug, PartialEq, Eq)]
pub struct ReadOptions {
    /// Verify the stored checksums on read.
    pub verify_checksums: bool,
    /// Keep what was read in the engine's cache.
    pub fill_cache: bool,
}

impl ReadOptions {
    /// The engine's documented defaults.
    pub open spec fn defaults() -> ReadOptions {
        ReadOptions { verify_checksums: false, fill_cache: true }
    }

    /// Options with every field at its default.
    pub fn new() -> (o: Self)
        ensures
            o == Self::defaults(),
    {
        ReadOptions { verify_checksums: false, fill_cache: true }
    }
}

impl From<PyReadOptions> for ReadOptions {
    fn from(py_options: PyReadOptions) -> (options: Self) {
        let mut options = ReadOptions::new();
        options.verify_checksums = py_options.verify_checksums;
        options.fill_cache = py_options.fill_cache;
        options
    }
}

impl vstd::std_specs::convert::FromSpecImpl<PyReadOptions> for ReadOptions {
    open spec fn obeys_from_spec() -> bool {
        true
    }

    open spec fn from_spec(py_options: PyReadOptions) -> ReadOptions {
        ReadOptions {
            verify_checksums: py_options.verify_checksums,
            fill_cache: py_options.fill_cache,
        }
    }
}

/// The options for a write, as the caller states them.
#[derive(Clone, Copy, Debug, PartialEq, Eq)]
pub struct PyWriteOptions {
    /// Sync to disk before the write is acknowledged. Default: false.
    pub sync: bool,
}

impl PyWriteOptions {
    /// The record that `new` makes of its argument.
    pub open spec fn spec_new(sync: Option<bool>) -> PyWriteOptions {
        PyWriteOptions { sync: value_or(sync, false) }
    }

    /// Makes the record from what the caller gave. A write is not synced
    /// unless the caller says so.
    pub fn new(sync: Option<bool>) -> (o: Self)
        ensures
            o == Self::spec_new(sync),
    {
        PyWriteOptions { sync: sync.unwrap_or(false) }
    }
}

/// The options that the engine takes for a write.
#[derive(Clone, Copy, Debug, PartialEq, Eq)]
pub struct WriteOptions {
    /// Sync to disk before the write is acknowledged.
    pub sync: bool,
}

impl WriteOptions {
    /// The engine's documented defaults.
    pub open spec fn defaults() -> WriteOptions {
        WriteOptions { sync: false }
    }

    /// Options with every field at its default.
    pub fn new() -> (o: Self)
        ensures
            o == Self::defaults(),
    {
        WriteOptions { sync: false }
    }
}

impl From<PyWriteOptions> for WriteOptions {
    fn from(py_options: PyWriteOptions) -> (options: Self) {
        let mut options = WriteOptions::new();
        options.sync = py_options.sync;
        options
    }
}

impl vstd::std_specs::convert::FromSpecImpl<PyWriteOptions> for WriteOptions {
    open spec fn obeys_from_spec() -> bool {
        true
    }

    open spec fn from_spec(py_options: PyWriteOptions) -> WriteOptions {
        WriteOptions { sync: py_options.sync }
    }
}

/// Open options in either shape that a caller may hand over.
pub enum PyOpenOptionsTypes {
    /// The typed record.
    Typed(PyOpenOptions),
    /// An untyped mapping of names to values.
    Raw(HashMap<String, String>),
}

/// Read options in either shape that a caller may hand over.
pub enum PyReadOptionsTypes {
    /// The typed record.
    Typed(PyReadOptions),
    /// An untyped mapping of names to values.
    Raw(HashMap<String, String>),
}

/// Write options in either shape that a caller may hand over.
pub enum PyWriteOptionsTypes {
    /// The typed record.
    Typed(PyWriteOptions),
    /// An untyped mapping of names to values.
    Raw(HashMap<String, String>),
}

/// What `translate_open` owes for `input`.
pub open spec fn open_translation(input: PyOpenOptionsTypes) -> Result<Options, BindingError> {
    match input {
        PyOpenOptionsTypes::Typed(o) => Ok(Options::from_spec(o)),
        PyOpenOptionsTypes::Raw(_) => Err(BindingError::UnsupportedConfigurationShape),
    }
}

/// What `translate_read` owes for `input`.
pub open spec fn read_translation(input: PyReadOptionsTypes) -> Result<ReadOptions, BindingError> {
    match input {
        PyReadOptionsTypes::Typed(o) => Ok(ReadOptions::from_spec(o)),
        PyReadOptionsTypes::Raw(_) => Err(BindingError::UnsupportedConfigurationShape),
    }
}

/// What `translate_write` owes for `input`.
pub open spec fn write_translation(input: PyWriteOptionsTypes) -> Result<WriteOptions, BindingError> {
    match input {
        PyWriteOptionsTypes::Typed(o) => Ok(WriteOptions::from_spec(o)),
        PyWriteOptionsTypes::Raw(_) => Err(BindingError::UnsupportedConfigurationShape),
    }
}

/// Turns the caller's open options into the engine's. A typed record always
/// translates; an untyped mapping is refused, whatever it holds.
pub fn translate_open(input: PyOpenOptionsTypes) -> (r: Result<Options, BindingError>)
    ensures
        r == open_translation(input),
{
    match input {
        PyOpenOptionsTypes::Typed(options) => Ok(Options::from(options)),
        PyOpenOptionsTypes::Raw(_) => Err(BindingError::UnsupportedConfigurationShape),
    }
}

/// Turns the caller's read options into the engine's. A typed record always
/// translates; an untyped mapping is refused, whatever it holds.
pub fn translate_read(input: PyReadOptionsTypes) -> (r: Result<ReadOptions, BindingError>)
    ensures
        r == read_translation(input),
{
    match input {
        PyReadOptionsTypes::Typed(options) => Ok(ReadOptions::from(options)),
        PyReadOptionsTypes::Raw(_) => Err(BindingError::UnsupportedConfigurationShape),
    }
}

/// Turns the caller's write options into the engine's. A typed record always
/// translates; an untyped mapping is refused, whatever it holds.
pub fn translate_write(input: PyWriteOptionsTypes) -> (r: Result<WriteOptions, BindingError>)
    ensures
        r == write_translation(input),
{
    match input {
        PyWriteOptionsTypes::Typed(options) => Ok(WriteOptions::from(options)),
        PyWriteOptionsTypes::Raw(_) => Err(BindingError::UnsupportedConfigurationShape),
    }
}

/// Nothing is lost or invented between the caller and the engine when a
/// database is opened. Through `new` and `from`, a field that the caller
/// left out reaches the engine with the engine's documented default, and a
/// field that the caller gave reaches it with that value: a switch as it is,
/// the compression switch as a compressor, an override as the same number.
pub proof fn lemma_open_defaults(
    create_if_missing: Option<bool>,
    error_if_exists: Option<bool>,
    paranoid_checks: Option<bool>,
    write_buffer_size: Option<usize>,
    max_open_files: Option<i32>,
    block_size: Option<usize>,
    block_restart_interval: Option<i32>,
    compression: Option<bool>,
    cache: Option<usize>,
)
    ensures
        ({
            let engine = Options::from_spec(
                PyOpenOptions::spec_new(
                    create_if_missing,
                    error_if_exists,
                    paranoid_checks,
                    write_buffer_size,
                    max_open_files,
                    block_size,
                    block_restart_interval,
                    compression,
                    cache,
                ),
            );
            let default = Options::defaults();
            &&& engine.create_if_missing == value_or(create_if_missing, default.create_if_missing)
            &&& engine.error_if_exists == value_or(error_if_exists, default.error_if_exists)
            &&& engine.paranoid_checks == value_or(paranoid_checks, default.paranoid_checks)
            &&& engine.write_buffer_size == write_buffer_size
            &&& engine.max_open_files == max_open_files
            &&& engine.block_size == block_size
            &&& engine.block_restart_interval == block_restart_interval
            &&& engine.compression == match compression {
                Some(enabled) => compression_of(enabled),
                None => default.compression,
            }
            &&& engine.cache == cache
            &&& write_buffer_size is None ==> engine.write_buffer_size == default.write_buffer_size
            &&& max_open_files is None ==> engine.max_open_files == default.max_open_files
            &&& block_size is None ==> engine.block_size == default.block_size
            &&& block_restart_interval is None ==> engine.block_restart_interval
                == default.block_restart_interval
            &&& cache is None ==> engine.cache == default.cache
        }),
        Options::from_spec(
            PyOpenOptions::spec_new(None, None, None, None, None, None, None, None, None),
        ) == Options::defaults(),
{
}

/// The same for a read: each field reaches the engine as the caller gave it,
/// and a field left out has the engine's default. Checksums are verified
/// only on request, and the cache is filled unless the caller declines.
pub proof fn lemma_read_defaults(verify_checksums: Option<bool>, fill_cache: Option<bool>)
    ensures
        ({
            let engine = ReadOptions::from_spec(PyReadOptions::spec_new(verify_checksums, fill_cache));
            let default = ReadOptions::defaults();
            &&& engine.verify_checksums == value_or(verify_checksums, default.verify_checksums)
            &&& engine.fill_cache == value_or(fill_cache, default.fill_cache)
        }),
        ReadOptions::from_spec(PyReadOptions::spec_new(None, None)) == ReadOptions::defaults(),
{
}

/// The same for a write: it is synced exactly when the caller asks for it.
pub proof fn lemma_write_defaults(sync: Option<bool>)
    ensures
        WriteOptions::from_spec(PyWriteOptions::spec_new(sync)).sync == value_or(
            sync,
            WriteOptions::defaults().sync,
        ),
        WriteOptions::from_spec(PyWriteOptions::spec_new(None)) == WriteOptions::defaults(),
{
}

} // verus!
