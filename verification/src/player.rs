//! The per-guild playback state machine: the track queue, the
//! playing/paused flags, and the typed node commands each playback
//! action emits.

use vstd::prelude::*;
use crate::events::VoiceServer;
use crate::node::NodeCommand;

verus! {

/// Why a playback command was refused.
#[derive(Debug, PartialEq, Eq, Structural, Clone, Copy)]
pub enum StateError {
    /// A player already exists for the guild.
    AlreadyConnected,
    /// No player exists for the guild.
    NotFound,
    /// The queue is empty, so there is nothing to skip.
    NothingPlaying,
}

/// Metadata of a track, immutable once obtained from a search result.
#[derive(Debug, Clone)]
pub struct TrackInfo {
    pub identifier: String,
    pub author: String,
    pub length: u64,
    pub position: u64,
    pub title: String,
    pub uri: String,
}

/// An encoded track plus its metadata.
#[derive(Debug, Clone)]
pub struct Track {
    pub track: String,
    pub info: TrackInfo,
}

/// Playlist metadata of a search result.
#[derive(Debug, Clone)]
pub struct PlaylistInfo {
    pub name: Option<String>,
    pub selected_track: Option<i32>,
}

/// What a track search returned.
#[derive(Debug)]
pub struct SearchResult {
    pub load_type: String,
    pub playlist_info: Option<PlaylistInfo>,
    pub tracks: Vec<Track>,
}

/// The playback state of one guild: at most one player exists per
/// guild at a time.
#[derive(Debug)]
pub struct Player {
    pub guild_id: String,
    pub channel_id: String,
    pub paused: bool,
    pub volume: u8,
    pub playing: bool,
    pub queue: Vec<Track>,
}

impl Player {
    /// A fresh, idle player bound to a guild and voice channel.
    pub fn new(guild_id: String, channel_id: String) -> (player: Player)
        ensures
            player.guild_id == guild_id,
            player.channel_id == channel_id,
            player.paused == false,
            player.volume == 100u8,
            player.playing == false,
            player.queue@ == Seq::<Track>::empty(),
    {
        Player {
            guild_id,
            channel_id,
            paused: false,
            volume: 100,
            playing: false,
            queue: Vec::new(),
        }
    }

    /// The voice-connect instruction for this player, formed from the
    /// guild's voice session and voice server.
    pub fn connect(&self, session_id: &String, event: &VoiceServer) -> (command: NodeCommand)
        ensures
            command == (NodeCommand::VoiceUpdate {
                guild_id: self.guild_id,
                session_id: *session_id,
                token: event.token,
                endpoint: event.endpoint,
            }),
    {
        NodeCommand::VoiceUpdate {
            guild_id: self.guild_id.clone(),
            session_id: session_id.clone(),
            token: event.token.clone(),
            endpoint: event.endpoint.clone(),
        }
    }

    /// Enqueue a track. An idle player starts playing it at once, so
    /// the command to send is returned exactly when the player was
    /// idle; a playing player only grows its queue.
    pub fn play(&mut self, track: Track) -> (command: Option<NodeCommand>)
        ensures
            final(self).queue@ == old(self).queue@.push(track),
            final(self).playing == true,
            final(self).guild_id == old(self).guild_id,
            final(self).channel_id == old(self).channel_id,
            final(self).paused == old(self).paused,
            final(self).volume == old(self).volume,
            old(self).playing ==> command is None,
            !old(self).playing ==> command == Some(
                NodeCommand::Play { guild_id: old(self).guild_id, track: track.track },
            ),
    {
        let command = if !self.playing {
            self.playing = true;
            Some(NodeCommand::Play { guild_id: self.guild_id.clone(), track: track.track.clone() })
        } else {
            None
        };
        self.queue.push(track);
        command
    }

    /// The pause (or resume) instruction for this player. The flag is
    /// only relayed to the node; the local state does not change.
    pub fn pause(&self, paused: bool) -> (command: NodeCommand)
        ensures
            command == (NodeCommand::Pause { guild_id: self.guild_id, pause: paused }),
    {
        NodeCommand::Pause { guild_id: self.guild_id.clone(), pause: paused }
    }

    /// Skip the current track: returns the track being skipped and the
    /// stop instruction to send. The queue itself is popped only by
    /// the track-end event that the stop provokes. Fails when the
    /// queue is empty.
    pub fn skip(&self) -> (result: Result<(&Track, NodeCommand), StateError>)
        ensures
            match result {
                Ok((track, command)) => self.queue@.len() > 0 && *track == self.queue@[0]
                    && command == (NodeCommand::Stop { guild_id: self.guild_id }),
                Err(e) => self.queue@.len() == 0 && e == StateError::NothingPlaying,
            },
    {
        if self.queue.len() == 0 {
            return Err(StateError::NothingPlaying);
        }
        let track = &self.queue[0];
        Ok((track, NodeCommand::Stop { guild_id: self.guild_id.clone() }))
    }

    /// The node finished a track: pop the head of the queue, start the
    /// new head if one remains, otherwise fall idle. Exactly one play
    /// command is returned when the popped queue is non-empty, none
    /// when it is empty.
    pub fn on_track_end(&mut self) -> (command: Option<NodeCommand>)
        ensures
            final(self).guild_id == old(self).guild_id,
            final(self).channel_id == old(self).channel_id,
            final(self).paused == old(self).paused,
            final(self).volume == old(self).volume,
            old(self).queue@.len() == 0 ==> final(self).queue@ == old(self).queue@
                && final(self).playing == false && command is None,
            old(self).queue@.len() > 0 ==> final(self).queue@ == old(self).queue@.skip(1),
            old(self).queue@.len() > 0 && final(self).queue@.len() == 0 ==> final(self).playing
                == false && command is None,
            old(self).queue@.len() > 0 && final(self).queue@.len() > 0 ==> final(self).playing
                == old(self).playing && command == Some(
                NodeCommand::Play {
                    guild_id: old(self).guild_id,
                    track: old(self).queue@[1].track,
                },
            ),
    {
        if self.queue.len() == 0 {
            self.playing = false;
            return None;
        }
        self.queue.remove(0);
        if self.queue.len() > 0 {
            let track = &self.queue[0];
            Some(NodeCommand::Play { guild_id: self.guild_id.clone(), track: track.track.clone() })
        } else {
            self.playing = false;
            None
        }
    }
}

/// True when `prefix` is an initial segment of `text`.
pub open spec fn spec_has_prefix(text: Seq<char>, prefix: Seq<char>) -> bool {
    prefix.len() <= text.len() && text.subrange(0, prefix.len() as int) == prefix
}

/// Character-by-character prefix test.
pub fn has_prefix(text: &str, prefix: &str) -> (r: bool)
    ensures
        r == spec_has_prefix(text@, prefix@),
{
    let text_len = text.unicode_len();
    let prefix_len = prefix.unicode_len();
    if prefix_len > text_len {
        return false;
    }
    let mut i: usize = 0;
    while i < prefix_len
        invariant
            i <= prefix_len,
            text_len == text@.len(),
            prefix_len == prefix@.len(),
            prefix_len <= text_len,
            forall|j: int| 0 <= j < i ==> text@[j] == prefix@[j],
        decreases prefix_len - i,
    {
        if text.get_char(i) != prefix.get_char(i) {
            proof {
                assert(text@.subrange(0, prefix@.len() as int)[i as int] != prefix@[i as int]);
            }
            return false;
        }
        i = i + 1;
    }
    proof {
        assert(text@.subrange(0, prefix@.len() as int) =~= prefix@);
    }
    true
}

/// The search identifier sent to the node's track lookup: the query,
/// prefixed by the platform when one is chosen.
pub fn search_identifier(query: &str, platform: Option<&str>) -> (identifier: String)
    ensures
        match platform {
            Some(p) => identifier@ == p@ + ":"@ + query@,
            None => identifier@ == query@,
        },
{
    match platform {
        Some(p) => {
            let mut identifier = String::from_str(p);
            identifier.append(":");
            identifier.append(query);
            identifier
        },
        None => String::from_str(query),
    }
}

/// The platform a search defaults to: an explicit choice wins; a query
/// that is already a link searches as-is; anything else searches the
/// default video platform.
pub fn default_platform(explicit: Option<String>, query: &str) -> (platform: Option<String>)
    ensures
        match explicit {
            Some(p) => platform == Some(p),
            None => {
                if spec_has_prefix(query@, "https://"@) || spec_has_prefix(query@, "http://"@) {
                    platform is None
                } else {
                    platform matches Some(p) && p@ == "ytsearch"@
                }
            },
        },
{
    match explicit {
        Some(p) => Some(p),
        None => {
            if has_prefix(query, "https://") || has_prefix(query, "http://") {
                None
            } else {
                Some(String::from_str("ytsearch"))
            }
        },
    }
}

/// The sum of the lengths of a sequence of tracks.
pub open spec fn spec_total_length(tracks: Seq<Track>) -> int
    decreases tracks.len(),
{
    if tracks.len() == 0 {
        0
    } else {
        spec_total_length(tracks.drop_last()) + tracks.last().info.length
    }
}

proof fn lemma_total_length_take_step(tracks: Seq<Track>, j: int)
    requires
        0 <= j < tracks.len(),
    ensures
        spec_total_length(tracks.take(j + 1)) == spec_total_length(tracks.take(j))
            + tracks[j].info.length,
{
    assert(tracks.take(j + 1).drop_last() =~= tracks.take(j));
    assert(tracks.take(j + 1).last() == tracks[j]);
}

proof fn lemma_total_length_nonneg(tracks: Seq<Track>)
    ensures
        spec_total_length(tracks) >= 0,
    decreases tracks.len(),
{
    if tracks.len() > 0 {
        lemma_total_length_nonneg(tracks.drop_last());
    }
}

proof fn lemma_total_length_take_le(tracks: Seq<Track>, j: int)
    requires
        0 <= j <= tracks.len(),
    ensures
        spec_total_length(tracks.take(j)) <= spec_total_length(tracks),
    decreases tracks.len() - j,
{
    if j == tracks.len() {
        assert(tracks.take(j) =~= tracks);
    } else {
        lemma_total_length_take_step(tracks, j);
        lemma_total_length_take_le(tracks, j + 1);
    }
}

/// The total playing time of a list of tracks, or nothing when the sum
/// does not fit the length type.
pub fn total_length(tracks: &Vec<Track>) -> (total: Option<u64>)
    ensures
        match total {
            Some(t) => t == spec_total_length(tracks@),
            None => spec_total_length(tracks@) > u64::MAX,
        },
{
    let mut acc: u64 = 0;
    let mut i: usize = 0;
    proof {
        assert(tracks@.take(0) =~= Seq::<Track>::empty());
    }
    while i < tracks.len()
        invariant
            i <= tracks@.len(),
            acc == spec_total_length(tracks@.take(i as int)),
        decreases tracks@.len() - i,
    {
        let length = tracks[i].info.length;
        proof {
            lemma_total_length_take_step(tracks@, i as int);
        }
        if acc > u64::MAX - length {
            proof {
                lemma_total_length_take_le(tracks@, i as int + 1);
            }
            return None;
        }
        acc = acc + length;
        i = i + 1;
    }
    proof {
        assert(tracks@.take(tracks@.len() as int) =~= tracks@);
    }
    Some(acc)
}

} // verus!
