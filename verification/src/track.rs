use vstd::prelude::*;

use crate::player::Player;

verus! {

/// One engine report about a track: the snapshot its get-info call returns.
/// The engine maintains these counters itself, so a caller fetches a fresh
/// snapshot for each query; a snapshot taken after rendering reflects the
/// advanced position.
pub struct TrackInfo {
    /// Raw bytes of the source's copyright event, absent when the engine
    /// reports none.
    pub copyright: Option<Vec<u8>>,
    /// Stereo samples the engine has processed so far.
    pub current_sample: usize,
    /// Stereo samples the engine expects to process in all. This includes
    /// the tail it renders to let the last notes decay smoothly.
    pub approx_total_samples: usize,
    /// Total time of the source's MIDI events, in milliseconds. Unlike the
    /// sample estimate it does not count the decay tail.
    pub total_midi_time: usize,
}

/// The text a byte sequence decodes to when it is valid UTF-8, and absence
/// when it is not.
pub uninterp spec fn utf8_decoding(bytes: Seq<u8>) -> Option<Seq<char>>;

/// Relies on std::str::from_utf8: decodes bytes as text exactly when they
/// are valid UTF-8. Validity and the decoded text depend on the bytes alone.
#[verifier::external_body]
fn decode_utf8(bytes: &Vec<u8>) -> (r: Option<String>)
    ensures
        r is Some <==> utf8_decoding(bytes@) is Some,
        r matches Some(s) ==> utf8_decoding(bytes@) == Some(s@),
{
    match std::str::from_utf8(bytes.as_slice()) {
        Ok(s) => Some(s.to_owned()),
        Err(_) => None,
    }
}

/// The text a track's copyright event decodes to: absent when the engine
/// reported no event, and also when its bytes are not valid text.
pub open spec fn copyright_text(info: TrackInfo) -> Option<Seq<char>> {
    match info.copyright {
        Some(bytes) => utf8_decoding(bytes@),
        None => None,
    }
}

/// What one render step hands the caller: nothing once the stream has
/// ended, and otherwise the engine's buffer trimmed to the count the engine
/// reported (never more than the request).
pub open spec fn play_output(ended: bool, len: usize, buf: Seq<u8>, read: usize) -> Seq<u8> {
    if ended {
        Seq::empty()
    } else if read <= len {
        buf.subrange(0, read as int)
    } else {
        buf.subrange(0, len as int)
    }
}

/// Whether the stream has ended after a render step: an ended stream stays
/// ended, and a read shorter than the request ends it.
pub open spec fn play_ended_after(ended: bool, len: usize, read: usize) -> bool {
    ended || read < len
}

/// An actual Midi file, capable of producing a PCM output: a decode session
/// opened against a live [`Player`].
///
/// The track borrows its player, so the synthesizer structurally cannot be
/// torn down while the track is open, and closing a track consumes it, so
/// no operation can reach a closed track. A track opened from memory owns
/// its source buffer for its whole lifetime, since the engine may read the
/// buffer lazily.
pub struct Midi<'a> {
    owner: &'a Player,
    source: Option<Vec<u8>>,
    eof: bool,
}

impl<'a> Midi<'a> {
    /// The player this track was opened under.
    pub closed spec fn owner_spec(self) -> Player {
        *self.owner
    }

    /// The in-memory source this track keeps alive, when it was opened from
    /// one.
    pub closed spec fn source_spec(self) -> Option<Seq<u8>> {
        match self.source {
            Some(v) => Some(v@),
            None => None,
        }
    }

    /// Whether a render has already signalled end-of-stream.
    pub closed spec fn ended(self) -> bool {
        self.eof
    }

    pub(crate) fn open(owner: &'a Player, source: Option<Vec<u8>>) -> (m: Midi<'a>)
        ensures
            m.owner_spec() == *owner,
            !m.ended(),
            source matches Some(v) ==> m.source_spec() == Some(v@),
            source is None ==> m.source_spec() is None,
    {
        Midi { owner, source, eof: false }
    }

    /// Whether end-of-stream has been signalled. Once it has, the engine is
    /// not to be asked for further output for this track.
    pub fn at_end(&self) -> (r: bool)
        ensures
            r == self.ended(),
    {
        self.eof
    }

    /// Returns a Vec<u8> containing at most `len` bytes of PCM data.
    ///
    /// `buf` and `read` are the engine's reply to the read-output call for
    /// this request: the buffer it filled and how many bytes it wrote. The
    /// result is that buffer trimmed to the written count, so no
    /// uninitialized tail ever reaches the caller. A result shorter than
    /// `len` is the one end-of-stream signal, and it is stable: once a
    /// render came up short, every later call returns no bytes and leaves
    /// the track unchanged, whatever the engine reports.
    pub fn play(&mut self, len: usize, buf: Vec<u8>, read: usize) -> (r: Vec<u8>)
        requires
            !old(self).ended() ==> buf@.len() == len && read <= len,
        ensures
            r@.len() <= len,
            r@ == play_output(old(self).ended(), len, buf@, read),
            final(self).ended() == play_ended_after(old(self).ended(), len, read),
            final(self).source_spec() == old(self).source_spec(),
            final(self).owner_spec() == old(self).owner_spec(),
    {
        if self.eof {
            return Vec::new();
        }

        let mut out = buf;
        out.truncate(read);

        if read < len {
            self.eof = true;
        }

        out
    }

    /// Resets all note specific midi states and active notes before scanning
    /// to `pos` samples from the beginning, taking note of any changes to
    /// midi channel states along the way.
    ///
    /// The engine performs the repositioning itself; this layer treats a
    /// failed engine seek as best-effort rather than an error: the stream
    /// counts as open again either way, and the next render re-detects the
    /// end of the stream from the engine's own short read.
    #[allow(unused_variables)]
    pub fn seek(&mut self, pos: u32)
        ensures
            !final(self).ended(),
            final(self).source_spec() == old(self).source_spec(),
            final(self).owner_spec() == old(self).owner_spec(),
    {
        self.eof = false;
    }

    /// Returns a string containing any copyright MIDI events, if any were
    /// found. Absent when the engine reports no such event in `info`, and
    /// also when the event's bytes are not valid text.
    pub fn copyright(&self, info: &TrackInfo) -> (r: Option<String>)
        ensures
            r is Some <==> copyright_text(*info) is Some,
            r matches Some(s) ==> copyright_text(*info) == Some(s@),
    {
        match &info.copyright {
            Some(bytes) => decode_utf8(bytes),
            None => None,
        }
    }

    /// The number of stereo samples the player has processed so far.
    /// Dividing this value by the player's 'rate' determines the current
    /// playing time.
    pub fn current_sample(&self, info: &TrackInfo) -> (r: usize)
        ensures
            r == info.current_sample,
    {
        info.current_sample
    }

    /// The number of stereo samples the player expects to process. Dividing
    /// this value by the player's 'rate' determines the MIDI's total length.
    pub fn total_samples(&self, info: &TrackInfo) -> (r: usize)
        ensures
            r == info.approx_total_samples,
    {
        info.approx_total_samples
    }

    /// This is the total time of MIDI events in 1/1000's of a second. It
    /// differs from 'total_samples' in that it only states the total time
    /// within the MIDI file, and does not take into account the extra bit
    /// of time to finish playing sampling smoothly.
    pub fn total_time(&self, info: &TrackInfo) -> (r: usize)
        ensures
            r == info.total_midi_time,
    {
        info.total_midi_time
    }

    /// Releases the track. Taking the track by value is what makes a second
    /// close impossible to express. The engine-side close belongs to the
    /// caller, and its failure is not propagated: once a track is being
    /// discarded there is no recovery action available.
    pub fn close(self) {
    }
}

/// End of stream is stable: after a render that came up short of its
/// request — or on a stream that had already ended — every later render
/// yields no bytes, whatever the engine hands back.
pub proof fn lemma_end_of_stream_stable(
    ended: bool,
    len1: usize,
    read1: usize,
    len2: usize,
    buf2: Seq<u8>,
    read2: usize,
)
    requires
        ended || read1 < len1,
    ensures
        play_ended_after(ended, len1, read1),
        play_output(play_ended_after(ended, len1, read1), len2, buf2, read2).len() == 0,
{
}

/// A seek reopens the stream: the render that follows it hands on exactly
/// the bytes the engine reported, so playback resumes with output as long
/// as the engine still produces any.
pub proof fn lemma_seek_resumes(len: usize, buf: Seq<u8>, read: usize)
    requires
        read <= len,
        read <= buf.len(),
    ensures
        play_output(false, len, buf, read).len() == read,
{
}

} // verus!
