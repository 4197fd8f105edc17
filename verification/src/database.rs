//! The handle to one open database.
//!
//! The handle does not open files itself. Whoever makes a handle also says
//! how the engine is asked, and the handle decides what is asked of it and
//! what becomes of its answer. The engine instance is held under shared
//! ownership: the handle, each copy of it and each cursor made from it owns
//! a share, and the instance is closed when the last share is dropped.

use crate::cursor::{CursorState, PyIterator};
use crate::error::BindingError;
use crate::options::{
    open_translation, read_translation, translate_open, translate_read, Options,
    PyOpenOptionsTypes, PyReadOptionsTypes, ReadOptions,
};
use std::sync::Arc;
use vstd::prelude::*;

verus! {

/// A handle to the open engine instance `E`.
pub struct PyDatabase<E>(Arc<E>);

impl<E> PyDatabase<E> {
    /// The engine instance behind the handle.
    pub closed spec fn engine(&self) -> E {
        *self.0
    }

    /// That `r` is what the binding makes of the engine's answer `opened` to
    /// a request to open: a handle to the instance that the engine opened,
    /// or the engine's diagnostic as an open error, unchanged.
    pub open spec fn opened_as(opened: Result<E, String>, r: Result<Self, BindingError>) -> bool {
        match opened {
            Ok(engine) => r matches Ok(db) && db.engine() == engine,
            Err(diagnostic) => r matches Err(e) && e == BindingError::Open(diagnostic),
        }
    }

    /// Makes the handle, or the error, from what the engine answered to a
    /// request to open.
    pub fn from_opened(opened: Result<E, String>) -> (r: Result<Self, BindingError>)
        ensures
            Self::opened_as(opened, r),
    {
        match opened {
            Ok(engine) => Ok(PyDatabase(Arc::new(engine))),
            Err(diagnostic) => Err(BindingError::Open(diagnostic)),
        }
    }

    /// Opens the database at `path`.
    ///
    /// `open_engine` asks the engine. It is handed `path` as it came and the
    /// translated options, and it answers with the open instance or with the
    /// engine's diagnostic. Options in the untyped shape are refused before
    /// the engine is asked, so nothing on disk is touched for them.
    pub fn new<F>(path: &str, open_options: PyOpenOptionsTypes, open_engine: F) -> (r: Result<
        Self,
        BindingError,
    >) where F: FnOnce(&str, Options) -> Result<E, String>
        requires
            open_translation(open_options) matches Ok(options) ==> open_engine.requires(
                (path, options),
            ),
        ensures
            match open_translation(open_options) {
                Ok(options) => exists|opened: Result<E, String>|
                    #[trigger] open_engine.ensures((path, options), opened) && Self::opened_as(
                        opened,
                        r,
                    ),
                Err(refusal) => r matches Err(e) && e == refusal,
            },
    {
        match translate_open(open_options) {
            Ok(options) => Self::from_opened(open_engine(path, options)),
            Err(refusal) => Err(refusal),
        }
    }

    /// Starts a cursor before the first entry.
    ///
    /// `open_cursor` asks the engine for its iteration state over the
    /// instance behind this handle, with the translated read options. With
    /// typed options this cannot fail. The cursor gets a share of the engine
    /// instance of its own, so it stays usable when the handle is gone, and
    /// it starts positioned whatever other cursors exist or have done.
    pub fn iter<I, F>(&self, read_options: PyReadOptionsTypes, open_cursor: F) -> (r: Result<
        PyIterator<E, I>,
        BindingError,
    >) where F: FnOnce(&E, ReadOptions) -> I
        requires
            read_translation(read_options) matches Ok(options) ==> open_cursor.requires(
                (&self.engine(), options),
            ),
        ensures
            match read_translation(read_options) {
                Ok(options) => r matches Ok(cursor) && cursor.engine() == self.engine()
                    && cursor.state() is Positioned && open_cursor.ensures(
                    (&self.engine(), options),
                    cursor.iterator(),
                ),
                Err(refusal) => r matches Err(e) && e == refusal,
            },
    {
        match translate_read(read_options) {
            Ok(options) => {
                let iter = open_cursor(&*self.0, options);
                Ok(PyIterator::start(self.0.clone(), iter))
            },
            Err(refusal) => Err(refusal),
        }
    }
}

impl<E> Clone for PyDatabase<E> {
    /// Another handle to the same engine instance. Nothing is opened or
    /// copied: the new handle owns one more share of the instance.
    fn clone(&self) -> (db: Self)
        ensures
            db.engine() == self.engine(),
    {
        PyDatabase(self.0.clone())
    }
}

} // verus!
