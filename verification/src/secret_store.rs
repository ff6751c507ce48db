//! Where the gateway token is stored: the OS keychain in release builds, a
//! file in debug builds, where every launch would make the keychain ask for
//! the login password.
use vstd::prelude::*;

use crate::config::{given, given_text};
use crate::text::cat;

verus! {

/// Keychain service identifier.
pub const KEYRING_SERVICE: &'static str = "com.cpmadrid.periclaw";

/// Keychain account for the gateway token.
pub const KEYRING_USER: &'static str = "openclaw-gateway-token";

/// Name of the token file within the config directory.
pub const FALLBACK_FILE: &'static str = "gateway-token";

/// Why a token could not be stored.
#[derive(Debug, PartialEq)]
pub enum SecretStoreError {
    NoHome,
    Keyring(String),
    Io(String),
}

/// What [`SecretStoreError`] holds, as mathematical values.
#[verifier::ext_equal]
pub enum SecretStoreErrorView {
    NoHome,
    Keyring(Seq<char>),
    Io(Seq<char>),
}

impl DeepView for SecretStoreError {
    type V = SecretStoreErrorView;

    open spec fn deep_view(&self) -> SecretStoreErrorView {
        match *self {
            SecretStoreError::NoHome => SecretStoreErrorView::NoHome,
            SecretStoreError::Keyring(a0) => SecretStoreErrorView::Keyring(a0.deep_view()),
            SecretStoreError::Io(a0) => SecretStoreErrorView::Io(a0.deep_view()),
        }
    }
}

impl Clone for SecretStoreError {
    fn clone(&self) -> (r: SecretStoreError)
        ensures
            r.deep_view() == self.deep_view(),
    {
        match self {
            SecretStoreError::NoHome => SecretStoreError::NoHome,
            SecretStoreError::Keyring(a0) => SecretStoreError::Keyring(a0.clone()),
            SecretStoreError::Io(a0) => SecretStoreError::Io(a0.clone()),
        }
    }
}

impl SecretStoreError {
    /// The error in words.
    pub fn message(&self) -> (r: String)
        ensures
            r@ == (match self.deep_view() {
                SecretStoreErrorView::NoHome => "no home directory available on this platform"@,
                SecretStoreErrorView::Keyring(e) => "keyring: "@ + e,
                SecretStoreErrorView::Io(e) => "io: "@ + e,
            }),
    {
        match self {
            SecretStoreError::NoHome => "no home directory available on this platform".to_owned(),
            SecretStoreError::Keyring(e) => cat("keyring: ", e.as_str()),
            SecretStoreError::Io(e) => cat("io: ", e.as_str()),
        }
    }
}

/// A place where the token can be.
#[derive(Debug, Clone, Copy, PartialEq, Eq, Structural)]
pub enum Backend {
    File,
    Keychain,
}

impl DeepView for Backend {
    type V = Backend;

    open spec fn deep_view(&self) -> Backend {
        *self
    }
}

/// What reading the stores comes to: the token, and whether it has to be
/// moved from the file into the keychain.
#[derive(Debug, PartialEq)]
pub struct Loaded {
    pub token: Option<String>,
    pub migrate: bool,
}

/// What [`Loaded`] holds, as mathematical values.
#[verifier::ext_equal]
pub struct LoadedView {
    pub token: Option<Seq<char>>,
    pub migrate: bool,
}

impl DeepView for Loaded {
    type V = LoadedView;

    open spec fn deep_view(&self) -> LoadedView {
        LoadedView {
            token: self.token.deep_view(),
            migrate: self.migrate.deep_view(),
        }
    }
}

impl Clone for Loaded {
    fn clone(&self) -> (r: Loaded)
        ensures
            r.deep_view() == self.deep_view(),
    {
        Loaded {
            token: self.token.clone(),
            migrate: self.migrate,
        }
    }
}

/// The store that a build reads first, which is the one it saves to.
pub open spec fn own_backend(debug: bool) -> Backend {
    if debug {
        Backend::File
    } else {
        Backend::Keychain
    }
}

/// Where the token is saved.
pub fn save_token(debug: bool) -> (r: Backend)
    ensures
        r == own_backend(debug),
{
    if debug {
        Backend::File
    } else {
        Backend::Keychain
    }
}

/// The order in which the stores are read. The second matters only when the
/// first holds nothing.
pub fn load_order(debug: bool) -> (r: (Backend, Backend))
    ensures
        r.0 == own_backend(debug),
        r.1 != r.0,
{
    if debug {
        (Backend::File, Backend::Keychain)
    } else {
        (Backend::Keychain, Backend::File)
    }
}

/// What reading the stores comes to. The file counts if it holds more than
/// white space.
pub open spec fn loaded(
    debug: bool,
    keychain: Option<Seq<char>>,
    file: Option<Seq<char>>,
) -> LoadedView {
    if debug {
        LoadedView {
            token: match given(file) {
                Some(t) => Some(t),
                None => keychain,
            },
            migrate: false,
        }
    } else {
        match keychain {
            Some(t) => LoadedView { token: Some(t), migrate: false },
            None => LoadedView { token: given(file), migrate: given(file) is Some },
        }
    }
}

/// Reads the token out of what the stores hold. A release build that finds it
/// only in the file has it moved into the keychain, so that the secret ends
/// up in one place; a debug build moves nothing.
pub fn load_token(debug: bool, keychain: Option<&str>, file: Option<&str>) -> (r: Loaded)
    ensures
        r.deep_view() == loaded(debug, keychain.deep_view(), file.deep_view()),
{
    let in_file = given_text(file);
    let in_keychain = match keychain {
        Some(t) => Some(t.to_owned()),
        None => None,
    };
    if debug {
        let token = match in_file {
            Some(t) => Some(t),
            None => in_keychain,
        };
        Loaded { token, migrate: false }
    } else {
        match in_keychain {
            Some(t) => Loaded { token: Some(t), migrate: false },
            None => {
                let migrate = in_file.is_some();
                Loaded { token: in_file, migrate }
            },
        }
    }
}

/// What a build finds in its own store it returns, whatever the other one
/// holds, and a token in either store is found.
pub proof fn load_law(
    debug: bool,
    keychain: Option<Seq<char>>,
    file: Option<Seq<char>>,
    other: Option<Seq<char>>,
)
    ensures
        debug && given(file) is Some ==> loaded(debug, keychain, file) == loaded(
            debug,
            other,
            file,
        ),
        !debug && keychain is Some ==> loaded(debug, keychain, file) == loaded(
            debug,
            keychain,
            other,
        ),
        loaded(debug, keychain, file).token is Some <==> keychain is Some || given(file) is Some,
        loaded(debug, keychain, file).migrate ==> !debug && keychain is None && loaded(
            debug,
            keychain,
            file,
        ).token == given(file),
{
}

// ---------------------------------------------------------------------
// Clearing the token
// ---------------------------------------------------------------------

/// The stores that clearing the token purges, in order.
pub open spec fn clear_order() -> Seq<Backend> {
    seq![Backend::Keychain, Backend::File]
}

/// The stores that clearing the token purges, in order: both of them, in every
/// build.
pub fn clear_token() -> (r: [Backend; 2])
    ensures
        r@ == clear_order(),
{
    let r: [Backend; 2] = [Backend::Keychain, Backend::File];
    assert(r@ =~= clear_order());
    r
}

/// The store to purge behind `last`, or the first one.
pub open spec fn purged_next(last: Option<Backend>) -> Option<Backend> {
    match last {
        None => Some(clear_order()[0]),
        Some(b) => if b == clear_order()[0] {
            Some(clear_order()[1])
        } else {
            None
        },
    }
}

/// Which store is purged next, once purging `last` did or did not work; `None`
/// at the end. A failure is no reason to stop.
pub fn clear_next(last: Option<Backend>, deleted: bool) -> (r: Option<Backend>)
    ensures
        r == purged_next(last),
{
    let order = clear_token();
    match last {
        None => Some(order[0]),
        Some(b) => if b == order[0] {
            Some(order[1])
        } else {
            None
        },
    }
}

/// What the keychain and the file hold once purging one of them did or did not
/// work.
pub open spec fn purged(
    stores: (Option<Seq<char>>, Option<Seq<char>>),
    backend: Backend,
    deleted: bool,
) -> (Option<Seq<char>>, Option<Seq<char>>) {
    if !deleted {
        stores
    } else {
        match backend {
            Backend::Keychain => (None, stores.1),
            Backend::File => (stores.0, None),
        }
    }
}

/// What the stores hold at the end of a clearing that has come to `last`, when
/// `deleted` tells in which stores purging works.
pub open spec fn cleared_from(
    last: Option<Backend>,
    stores: (Option<Seq<char>>, Option<Seq<char>>),
    deleted: spec_fn(Backend) -> bool,
) -> (Option<Seq<char>>, Option<Seq<char>>)
    decreases
            match last {
                None => 2int,
                Some(Backend::Keychain) => 1int,
                Some(Backend::File) => 0int,
            },
{
    match purged_next(last) {
        Some(b) => cleared_from(Some(b), purged(stores, b, deleted(b)), deleted),
        None => stores,
    }
}

/// What the keychain and the file hold after the token has been cleared.
pub open spec fn cleared(
    keychain: Option<Seq<char>>,
    file: Option<Seq<char>>,
    deleted: spec_fn(Backend) -> bool,
) -> (Option<Seq<char>>, Option<Seq<char>>) {
    cleared_from(None, (keychain, file), deleted)
}

/// Clearing empties each store that can be purged, also if purging the other
/// one fails, and leaves one that cannot as it was. Where both can be purged
/// no token is stored, and none is found in either build. Clearing once more
/// changes nothing; where both were purged, whatever comes of it.
pub proof fn clear_means_clear_everywhere(
    debug: bool,
    keychain: Option<Seq<char>>,
    file: Option<Seq<char>>,
    deleted: spec_fn(Backend) -> bool,
    again: spec_fn(Backend) -> bool,
)
    ensures
        ({
            let after = cleared(keychain, file, deleted);
            &&& after.0 == (if deleted(Backend::Keychain) {
                None
            } else {
                keychain
            })
            &&& after.1 == (if deleted(Backend::File) {
                None
            } else {
                file
            })
            &&& deleted(Backend::Keychain) && deleted(Backend::File) ==> {
                &&& !is_stored(after.0, after.1)
                &&& loaded(debug, after.0, after.1).token is None
                &&& !loaded(debug, after.0, after.1).migrate
                &&& cleared(after.0, after.1, again) == after
            }
            &&& cleared(after.0, after.1, deleted) == after
        }),
{
    reveal_with_fuel(cleared_from, 3);
}

/// Where the secret lives under the current build, for the operator to see.
pub fn storage_location_hint(debug: bool) -> (r: &'static str)
    ensures
        r@ == (if debug {
            "on-disk fallback file (debug build)"@
        } else {
            "OS keychain"@
        }),
{
    if debug {
        "on-disk fallback file (debug build)"
    } else {
        "OS keychain"
    }
}

/// Whether a token is stored: in the keychain, or in a file that holds more
/// than white space.
pub open spec fn is_stored(keychain: Option<Seq<char>>, file: Option<Seq<char>>) -> bool {
    keychain is Some || given(file) is Some
}

/// Whether a token is stored in either place, so that it can be cleared.
pub fn has_token(keychain: Option<&str>, file: Option<&str>) -> (r: bool)
    ensures
        r == (keychain is Some || given(file.deep_view()) is Some),
        r == is_stored(keychain.deep_view(), file.deep_view()),
{
    keychain.is_some() || given_text(file).is_some()
}

/// A token is stored exactly when reading the stores gives one, in both
/// builds.
pub proof fn stored_is_found(debug: bool, keychain: Option<Seq<char>>, file: Option<Seq<char>>)
    ensures
        is_stored(keychain, file) <==> loaded(debug, keychain, file).token is Some,
{
}

// ---------------------------------------------------------------------
// Moving the token
// ---------------------------------------------------------------------

/// Whether the file goes once its token was to be written to the keychain:
/// only if the write took, so that a failed one loses nothing.
pub fn delete_after_migration(written: bool) -> (r: bool)
    ensures
        r == written,
{
    written
}

/// What the stores hold, the keychain and the file, after the token has been
/// read: where it had to be moved, the keychain has it and the file is gone if
/// the write took, and else nothing has changed.
pub open spec fn stores_after(
    debug: bool,
    keychain: Option<Seq<char>>,
    file: Option<Seq<char>>,
    written: bool,
) -> (Option<Seq<char>>, Option<Seq<char>>) {
    if loaded(debug, keychain, file).migrate && written {
        (loaded(debug, keychain, file).token, None)
    } else {
        (keychain, file)
    }
}

/// In a release build a token that only the file holds ends up in one place:
/// in the keychain, without the white space around it, or still in the file if
/// the keychain did not take it. Either way it is found again. Nothing else
/// is ever moved.
pub proof fn migration_leaves_one_copy(
    debug: bool,
    keychain: Option<Seq<char>>,
    file: Option<Seq<char>>,
    written: bool,
)
    ensures
        ({
            let token = loaded(debug, keychain, file).token;
            let after = stores_after(debug, keychain, file, written);
            &&& loaded(debug, after.0, after.1).token == token
            &&& !debug && keychain is None && given(file) is Some ==> token == given(file) && (
            if written {
                after.0 == token && after.1 is None
            } else {
                after.0 is None && after.1 == file
            })
            &&& debug || keychain is Some || given(file) is None ==> after == (keychain, file)
        }),
{
}

} // verus!
