use vstd::prelude::*;

use crate::errors::PlayerError;
use crate::track::Midi;

verus! {

/// Lowest sample rate the engine accepts, in samples per second.
pub const MIN_SAMPLE_RATE: u16 = 11025;

/// Highest sample rate the engine accepts, in samples per second.
pub const MAX_SAMPLE_RATE: u16 = 65535;

/// Master volume the engine starts with after a successful initialize.
pub const DEFAULT_VOLUME: u8 = 100;

/// Largest master volume level the engine accepts.
pub const MAX_VOLUME: u8 = 127;

/// Whether `rate` lies in the range the engine accepts. Rates outside it
/// must be rejected before they reach the engine boundary.
pub open spec fn valid_rate(rate: u16) -> bool {
    MIN_SAMPLE_RATE <= rate <= MAX_SAMPLE_RATE
}

/// Relies on std::path::Path::exists: reports whether `path` names an entry
/// present on the filesystem at the moment of the call. The answer depends
/// on the machine's disk, so nothing is assumed about it.
#[verifier::external_body]
fn path_exists(path: &str) -> bool {
    std::path::Path::new(path).exists()
}

/// Loader for the Midi format: the live handle on the engine's single
/// process-wide synthesizer instance.
///
/// A `Player` only comes out of [`InitRequest::complete`] with a zero engine
/// status, so holding one means the engine was initialized with a validated
/// rate. Tracks opened under it borrow it, so it cannot be torn down while
/// any of them is still open.
pub struct Player {
    cfg: String,
    rate: u16,
    master_volume: u8,
}

impl Player {
    /// What holds of every live handle: the rate was validated before the
    /// engine saw it, and the master volume is within the engine's range.
    #[verifier::type_invariant]
    pub closed spec fn inv(self) -> bool {
        valid_rate(self.rate) && self.master_volume <= MAX_VOLUME
    }

    /// The configuration path the engine was initialized with.
    pub closed spec fn cfg_spec(self) -> Seq<char> {
        self.cfg@
    }

    /// The output sample rate the engine was initialized with.
    pub closed spec fn rate_spec(self) -> u16 {
        self.rate
    }

    /// The master volume the engine last accepted.
    pub closed spec fn volume_spec(self) -> u8 {
        self.master_volume
    }

    /// The sample rate the engine was initialized with. Dividing a track's
    /// sample counters by this gives times in seconds.
    pub fn rate(&self) -> (r: u16)
        ensures
            r == self.rate_spec(),
    {
        self.rate
    }

    /// The master volume the engine last accepted, 100 until the first
    /// accepted change.
    pub fn current_volume(&self) -> (r: u8)
        ensures
            r == self.volume_spec(),
    {
        self.master_volume
    }

    /// Looks for the engine configuration at the well-known paths, most
    /// specific first, and returns the first that exists on this machine.
    pub fn locate_cfg() -> (r: Option<&'static str>)
        ensures
            r matches Some(p) ==> p@ == "/etc/wildmidi/wildmidi.cfg"@ || p@ == "/etc/wildmidi.cfg"@,
    {
        if path_exists("/etc/wildmidi/wildmidi.cfg") {
            Some("/etc/wildmidi/wildmidi.cfg")
        } else if path_exists("/etc/wildmidi.cfg") {
            Some("/etc/wildmidi.cfg")
        } else {
            None
        }
    }

    /// Create a new Player with the given sample rate, using the default
    /// configuration file.
    ///
    /// This is the first of the two stages that open the synthesizer: it
    /// resolves a configuration and validates the rate, and the request it
    /// returns carries both to the engine's initialize call.
    ///
    /// # Errors
    ///
    /// Fails with `ConfigurationNotFound` if neither of the default
    /// configuration files exists ('/etc/wildmidi/wildmidi.cfg',
    /// '/etc/wildmidi.cfg'), and with `InvalidSampleRate` if `rate` is not
    /// on the interval [11025, 65535].
    pub fn new(rate: u16) -> (r: Result<InitRequest, PlayerError>)
        ensures
            r matches Ok(req) ==> valid_rate(rate) && req.rate_spec() == rate
                && (req.cfg_spec() == "/etc/wildmidi/wildmidi.cfg"@
                    || req.cfg_spec() == "/etc/wildmidi.cfg"@),
            r matches Err(e) ==> e == PlayerError::ConfigurationNotFound
                || e == PlayerError::InvalidSampleRate,
            !valid_rate(rate) ==> r is Err,
    {
        let cfg = match Player::locate_cfg() {
            Some(cfg) => cfg,
            None => {
                return Err(PlayerError::ConfigurationNotFound);
            },
        };

        Player::with_cfg(cfg, rate)
    }

    /// Create a new Player with the given config path and sample rate.
    ///
    /// First stage of opening the synthesizer: succeeds exactly when `rate`
    /// is on the interval [11025, 65535], so an out-of-range rate never
    /// reaches the engine. The engine's initialize call is made by the
    /// caller with the returned request's path and rate, and its status is
    /// judged by [`InitRequest::complete`].
    ///
    /// # Errors
    ///
    /// Fails with `InvalidSampleRate` if 'rate' is not on the interval
    /// [11025, 65535].
    pub fn with_cfg(cfg: &str, rate: u16) -> (r: Result<InitRequest, PlayerError>)
        ensures
            r is Ok <==> valid_rate(rate),
            r matches Ok(req) ==> req.cfg_spec() == cfg@ && req.rate_spec() == rate,
            r matches Err(e) ==> e == PlayerError::InvalidSampleRate,
    {
        if rate < MIN_SAMPLE_RATE {
            return Err(PlayerError::InvalidSampleRate);
        }

        Ok(InitRequest { cfg: cfg.to_owned(), rate })
    }

    /// Sets the overall library volume level. The default is 100.
    ///
    /// The change is process-wide and affects every track uniformly; the
    /// engine has no per-track volume. `status` is the engine's answer to
    /// the master-volume call for `volume`: zero means the engine took the
    /// new level, anything else leaves the old level standing.
    ///
    /// # Errors
    ///
    /// Fails with `VolumeRejected` if the engine reports nonzero status.
    pub fn volume(&mut self, volume: u8, status: i32) -> (r: Result<(), PlayerError>)
        requires
            volume <= MAX_VOLUME,
        ensures
            r is Ok <==> status == 0,
            status == 0 ==> final(self).volume_spec() == volume,
            status != 0 ==> final(self).volume_spec() == old(self).volume_spec(),
            final(self).cfg_spec() == old(self).cfg_spec(),
            final(self).rate_spec() == old(self).rate_spec(),
            r matches Err(e) ==> e == PlayerError::VolumeRejected,
    {
        proof {
            use_type_invariant(&*self);
        }

        if status != 0 {
            return Err(PlayerError::VolumeRejected);
        }

        self.master_volume = volume;
        Ok(())
    }

    /// Loads a Midi file from memory.
    ///
    /// The engine parses caller-supplied bytes; `parsed` is its verdict,
    /// with a null handle reported as `false`. On success the returned
    /// track takes ownership of `data` and keeps it alive for its whole
    /// lifetime, since the engine may read the buffer lazily.
    ///
    /// # Errors
    ///
    /// Fails with `ParseFailed` if the engine rejected the buffer (a parse
    /// error, or any other engine-internal rejection — the engine does not
    /// distinguish these cases, so neither does this layer).
    pub fn load(&self, data: Vec<u8>, parsed: bool) -> (r: Result<Midi<'_>, PlayerError>)
        ensures
            r is Ok <==> parsed,
            r matches Ok(m) ==> m.source_spec() == Some(data@) && !m.ended()
                && m.owner_spec() == *self,
            r matches Err(e) ==> e == PlayerError::ParseFailed,
    {
        if parsed {
            Ok(Midi::open(self, Some(data)))
        } else {
            Err(PlayerError::ParseFailed)
        }
    }

    /// Loads a Midi file from disk.
    ///
    /// First stage of a file open: the path's existence is checked here, so
    /// a missing file is rejected without the engine ever being asked. The
    /// caller performs the engine's open call on the returned request's
    /// path and hands the outcome to [`OpenRequest::complete`].
    ///
    /// # Errors
    ///
    /// Fails with `SourceNotFound` if the file does not exist.
    pub fn load_file(&self, path: &str) -> (r: Result<OpenRequest<'_>, PlayerError>)
        ensures
            r matches Ok(req) ==> req.path_spec() == path@ && req.owner_spec() == *self,
            r matches Err(e) ==> e == PlayerError::SourceNotFound,
    {
        if !path_exists(path) {
            return Err(PlayerError::SourceNotFound);
        }

        Ok(OpenRequest { owner: self, path: path.to_owned() })
    }
}

/// A file open this layer has approved: the path exists, so what remains is
/// the engine's own parse. The caller performs the engine's open call on
/// [`OpenRequest::path`] and hands the outcome to [`OpenRequest::complete`].
pub struct OpenRequest<'a> {
    owner: &'a Player,
    path: String,
}

impl<'a> OpenRequest<'a> {
    /// The player the track is being opened under.
    pub closed spec fn owner_spec(self) -> Player {
        *self.owner
    }

    /// The path whose existence was checked.
    pub closed spec fn path_spec(self) -> Seq<char> {
        self.path@
    }

    /// The path for the engine's open call.
    pub fn path(&self) -> (r: &str)
        ensures
            r@ == self.path_spec(),
    {
        self.path.as_str()
    }

    /// Second stage of a file open: `parsed` is the engine's verdict on the
    /// file, with a null handle reported as `false`.
    ///
    /// # Errors
    ///
    /// Fails with `ParseFailed` if the engine rejected the file (a format
    /// error, an unreadable file, or any other engine-internal rejection —
    /// the engine does not distinguish these cases, so neither does this
    /// layer).
    pub fn complete(self, parsed: bool) -> (r: Result<Midi<'a>, PlayerError>)
        ensures
            r is Ok <==> parsed,
            r matches Ok(m) ==> m.source_spec() is None && !m.ended()
                && m.owner_spec() == self.owner_spec(),
            r matches Err(e) ==> e == PlayerError::ParseFailed,
    {
        if parsed {
            Ok(Midi::open(self.owner, None))
        } else {
            Err(PlayerError::ParseFailed)
        }
    }
}

/// An initialization this layer has approved: the rate was validated and a
/// configuration path chosen. The caller performs the engine's global
/// initialize with [`InitRequest::cfg`] and [`InitRequest::rate`] and hands
/// the status to [`InitRequest::complete`].
pub struct InitRequest {
    cfg: String,
    rate: u16,
}

impl InitRequest {
    /// A request only exists for a rate the engine accepts.
    #[verifier::type_invariant]
    pub closed spec fn inv(self) -> bool {
        valid_rate(self.rate)
    }

    /// The configuration path this request carries.
    pub closed spec fn cfg_spec(self) -> Seq<char> {
        self.cfg@
    }

    /// The validated sample rate this request carries.
    pub closed spec fn rate_spec(self) -> u16 {
        self.rate
    }

    /// The configuration path for the engine's initialize call.
    pub fn cfg(&self) -> (r: &str)
        ensures
            r@ == self.cfg_spec(),
    {
        self.cfg.as_str()
    }

    /// The sample rate for the engine's initialize call.
    pub fn rate(&self) -> (r: u16)
        ensures
            r == self.rate_spec(),
    {
        self.rate
    }

    /// Second stage of opening the synthesizer: `status` is what the engine
    /// returned from its initialize call. Zero establishes the live handle,
    /// with the master volume at its default; anything else reports
    /// `InitializationFailed` and leaves no handle behind.
    pub fn complete(self, status: i32) -> (r: Result<Player, PlayerError>)
        ensures
            r is Ok <==> status == 0,
            r matches Ok(p) ==> p.cfg_spec() == self.cfg_spec()
                && p.rate_spec() == self.rate_spec()
                && p.volume_spec() == DEFAULT_VOLUME,
            r matches Err(e) ==> e == PlayerError::InitializationFailed,
    {
        if status != 0 {
            return Err(PlayerError::InitializationFailed);
        }

        proof {
            use_type_invariant(&self);
        }

        Ok(Player { cfg: self.cfg, rate: self.rate, master_volume: DEFAULT_VOLUME })
    }
}

} // verus!
