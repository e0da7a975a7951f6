//! The choices behind selecting what to screencast: which cursor mode, which kinds of
//! sources, and whether to persist the session.
use vstd::prelude::*;
use ashpd::WindowIdentifier;

verus! {

#[verifier::external_type_specification]
#[verifier::external_body]
pub struct ExWindowIdentifier(WindowIdentifier);

/// How the cursor appears in a screencast.
#[derive(Debug, Clone, Copy, PartialEq, Eq, Structural, Hash)]
pub enum CursorMode {
    /// The cursor is not part of the screencast stream.
    Hidden,
    /// The cursor is embedded as part of the stream buffers.
    Embedded,
    /// The cursor is sent as stream metadata.
    Metadata,
}

/// The bit that stands for a cursor mode in a set of cursor modes.
pub open spec fn cursor_mode_bit(mode: CursorMode) -> u32 {
    match mode {
        CursorMode::Hidden => 1,
        CursorMode::Embedded => 2,
        CursorMode::Metadata => 4,
    }
}

/// A set of cursor modes, as the bits of the portal protocol (`1` hidden, `2` embedded,
/// `4` metadata).
#[derive(Debug, Clone, Copy, PartialEq, Eq, Structural, Hash)]
pub struct CursorModes(u32);

impl CursorModes {
    /// The bits of this set.
    pub closed spec fn view(self) -> u32 {
        self.0
    }

    /// The set with the given bits, dropping the bits that stand for no cursor mode.
    pub fn from_bits_truncate(bits: u32) -> (r: CursorModes)
        ensures
            r@ == bits & 7,
    {
        CursorModes(bits & 7)
    }

    /// The bits of this set.
    pub fn bits(self) -> (r: u32)
        ensures
            r == self@,
    {
        self.0
    }

    /// Whether this set holds `mode`.
    pub fn contains(self, mode: CursorMode) -> (r: bool)
        ensures
            r == (self@ & cursor_mode_bit(mode) != 0),
    {
        let bit: u32 = match mode {
            CursorMode::Hidden => 1,
            CursorMode::Embedded => 2,
            CursorMode::Metadata => 4,
        };
        self.0 & bit != 0
    }

    /// The cursor modes that a cache holds: a cache of zero holds nothing yet.
    pub fn from_cache(cache: u32) -> (r: Option<CursorModes>)
        ensures
            r is None <==> cache == 0,
            r matches Some(m) ==> m@ == cache & 7,
    {
        if cache != 0 {
            Some(CursorModes::from_bits_truncate(cache))
        } else {
            None
        }
    }
}

/// A kind of source to screencast.
#[derive(Debug, Clone, Copy, PartialEq, Eq, Structural, Hash)]
pub enum SourceType {
    /// A monitor.
    Monitor,
    /// A specific window.
    Window,
    /// A virtual screen.
    Virtual,
}

/// A set of source types, as the bits of the portal protocol (`1` monitor, `2` window,
/// `4` virtual).
#[derive(Debug, Clone, Copy, PartialEq, Eq, Structural, Hash)]
pub struct SourceTypes(u32);

impl SourceTypes {
    /// The bits of this set.
    pub closed spec fn view(self) -> u32 {
        self.0
    }

    /// The bits of this set.
    pub fn bits(self) -> (r: u32)
        ensures
            r == self@,
    {
        self.0
    }
}

/// How long a screencast session persists.
#[derive(Debug, Clone, Copy, PartialEq, Eq, Structural, Hash, Default)]
pub enum PersistMode {
    /// Do not persist.
    #[default]
    DoNot,
    /// Persist while the application is running.
    Application,
    /// Persist until explicitly revoked.
    ExplicitlyRevoked,
}

/// A structure for selecting something to screencast.
#[derive(Debug, Clone, Copy)]
#[non_exhaustive]
pub struct SelectSources<'a> {
    /// A restoration token if we're restoring another session. Defaults to `None`.
    pub restore_token: Option<&'a str>,
    /// Whether we want to persist the current session. Defaults to `false`.
    pub persist_session: bool,
    /// A parent window identifier, to tell the compositor where we'd like to display the
    /// prompt. Defaults to `None`.
    pub parent_window: Option<&'a WindowIdentifier>,
    /// Whether we want to show the cursor. Defaults to `true`.
    pub show_cursor: bool,
    /// Whether we want to allow the capture of windows. Defaults to `true`.
    pub allow_windows: bool,
    /// Whether we want to allow the capture of virtual screens. Defaults to `true`.
    pub allow_virtual: bool,
    /// Whether we want to allow getting multiple sources. Defaults to `false`.
    pub allow_multiple: bool,
}

impl<'a> SelectSources<'a> {
    /// Select the best-fitting cursor mode among the `available` ones: embedded if the
    /// cursor should show and that is available, else metadata if available, else hidden.
    pub fn choose_cursor_mode(&self, available: CursorModes) -> (r: CursorMode)
        ensures
            r == (if self.show_cursor && available@ & 2 != 0 {
                CursorMode::Embedded
            } else if available@ & 4 != 0 {
                CursorMode::Metadata
            } else {
                CursorMode::Hidden
            }),
    {
        if self.show_cursor && available.contains(CursorMode::Embedded) {
            CursorMode::Embedded
        } else if available.contains(CursorMode::Metadata) {
            CursorMode::Metadata
        } else {
            CursorMode::Hidden
        }
    }

    /// The source types to offer: monitors always, windows and virtual screens when they
    /// are allowed.
    pub fn source_types(&self) -> (r: SourceTypes)
        ensures
            r@ == 1 + (if self.allow_windows { 2int } else { 0int }) + (if self.allow_virtual {
                4int
            } else {
                0int
            }),
    {
        let mut source_types: u32 = 1;
        if self.allow_windows {
            source_types = source_types | 2;
        }
        if self.allow_virtual {
            source_types = source_types | 4;
        }
        proof {
            assert((1u32 | 2u32 == 3u32) && (1u32 | 4u32 == 5u32) && (3u32 | 4u32 == 7u32)) by (bit_vector);
        }
        SourceTypes(source_types)
    }

    /// The persist mode: until explicitly revoked when the session should persist,
    /// otherwise not at all.
    pub fn persist_mode(&self) -> (r: PersistMode)
        ensures
            r == (if self.persist_session {
                PersistMode::ExplicitlyRevoked
            } else {
                PersistMode::DoNot
            }),
    {
        if self.persist_session {
            PersistMode::ExplicitlyRevoked
        } else {
            PersistMode::DoNot
        }
    }
}

impl<'a> Default for SelectSources<'a> {
    fn default() -> (r: Self)
        ensures
            r.restore_token is None,
            r.parent_window is None,
            !r.persist_session,
            r.show_cursor,
            r.allow_windows,
            r.allow_virtual,
            !r.allow_multiple,
    {
        SelectSources {
            restore_token: None,
            parent_window: None,
            persist_session: false,
            show_cursor: true,
            allow_windows: true,
            allow_virtual: true,
            allow_multiple: false,
        }
    }
}

} // verus!
