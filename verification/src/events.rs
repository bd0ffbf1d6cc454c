//! Typed events decoded from the gateway, and the payload data model:
//! voice states, voice servers, interactions, and the embed/callback
//! builders used to answer interactions.

use vstd::prelude::*;

verus! {

/// A user record carried by the session's ready event.
#[derive(Debug, Clone)]
pub struct ReadyUser {
    pub avatar: Option<String>,
    pub bot: bool,
    pub discriminator: String,
    pub flags: u32,
    pub id: String,
    pub username: String,
}

/// One logical voice record per (guild, user): the channel the user
/// occupies, if any, and the voice session id.
#[derive(Debug, Clone)]
pub struct VoiceState {
    pub channel_id: Option<String>,
    pub guild_id: String,
    pub user_id: String,
    pub session_id: String,
}

impl VoiceState {
    /// An exact copy; unlike a derived clone, the copy is known to
    /// carry the same fields.
    pub fn duplicate(&self) -> (copy: VoiceState)
        ensures
            copy == *self,
    {
        VoiceState {
            channel_id: match &self.channel_id {
                Some(channel) => Some(channel.clone()),
                None => None,
            },
            guild_id: self.guild_id.clone(),
            user_id: self.user_id.clone(),
            session_id: self.session_id.clone(),
        }
    }
}

/// The voice server assigned to a guild: one per guild, replaced in
/// place on update.
#[derive(Debug, Clone)]
pub struct VoiceServer {
    pub token: String,
    pub guild_id: String,
    pub endpoint: String,
}

/// A text channel, as fetched from the chat service.
#[derive(Debug, Clone)]
pub struct Channel {
    pub id: String,
    pub name: String,
}

#[derive(Debug, Clone)]
pub struct User {
    pub avatar: Option<String>,
    pub discriminator: String,
    pub id: String,
    pub public_flags: u32,
    pub username: String,
}

#[derive(Debug, Clone)]
pub struct Author {
    pub avatar: Option<String>,
    pub discriminator: String,
    pub id: String,
    pub username: String,
}

/// A guild member, optionally annotated with the member's current
/// voice record before a command is handled.
#[derive(Debug)]
pub struct Member {
    pub avatar: Option<String>,
    pub nick: Option<String>,
    pub roles: Vec<String>,
    pub user: User,
    pub voice: Option<VoiceState>,
}

impl Member {
    /// The voice channel this member occupies. Callers must have
    /// checked that a voice record with a channel is attached.
    pub fn get_voice_channel(&self) -> (channel: &String)
        requires
            self.voice is Some,
            self.voice->Some_0.channel_id is Some,
        ensures
            channel == self.voice->Some_0.channel_id->Some_0,
    {
        match &self.voice {
            Some(voice) => match &voice.channel_id {
                Some(channel) => channel,
                None => unreached(),
            },
            None => unreached(),
        }
    }
}

/// A chat message, as decoded from a message event.
#[derive(Debug)]
pub struct DiscordMessage {
    pub channel_id: String,
    pub content: String,
    pub flags: u32,
    pub guild_id: String,
    pub id: String,
    pub member: Member,
    pub author: Author,
    pub token: Option<String>,
}

/// The value a caller supplied for one command option.
#[derive(Debug, Clone)]
pub enum OptionValue {
    Text(String),
    Flag(bool),
    Other,
}

/// One option of an invoked command; options nest for subcommands.
#[derive(Debug)]
pub struct InteractionDataOption {
    pub name: String,
    pub value: Option<OptionValue>,
    pub options: Option<Vec<InteractionDataOption>>,
}

impl InteractionDataOption {
    pub fn get_name(&self) -> (name: Option<&str>)
        ensures
            name is Some && name->Some_0@ == self.name@,
    {
        Some(self.name.as_str())
    }
}

/// The command payload of an interaction: which command was invoked
/// and with which options.
#[derive(Debug)]
pub struct InteractionData {
    pub id: String,
    pub name: String,
    pub options: Option<Vec<InteractionDataOption>>,
}

/// An invoked application command, with the invoking member.
#[derive(Debug)]
pub struct Interaction {
    pub id: String,
    pub application_id: String,
    pub interaction_type: u32,
    pub data: Option<InteractionData>,
    pub guild_id: String,
    pub channel_id: String,
    pub member: Member,
    pub token: String,
}

/// What the first option named `name` holds, searching depth-first
/// through nested options; `None` when no option carries the name
/// or the first carrier has no value.
pub open spec fn spec_find_option(options: Seq<InteractionDataOption>, name: Seq<char>) -> Option<
    OptionValue,
>
    decreases options,
{
    if options.len() == 0 {
        None::<OptionValue>
    } else if options[0].name@ == name {
        match options[0].value {
            Some(v) => Some(v),
            None => None,
        }
    } else {
        let nested = match options[0].options {
            Some(opts) => spec_find_option(opts@, name),
            None => None,
        };
        match nested {
            Some(v) => Some(v),
            None => spec_find_option(options.skip(1), name),
        }
    }
}

/// Depth-first search of a command's options for the one named `name`.
/// The first match wins; the match's own value is returned even when
/// it is absent, in which case the search reports nothing.
pub fn rec_options<'i>(options: &'i Vec<InteractionDataOption>, name: &String) -> (found: Option<
    &'i OptionValue,
>)
    ensures
        match found {
            Some(v) => spec_find_option(options@, name@) == Some(*v),
            None => spec_find_option(options@, name@) is None,
        },
    decreases options@,
{
    let mut i: usize = 0;
    proof {
        assert(options@.skip(0) =~= options@);
    }
    while i < options.len()
        invariant
            i <= options@.len(),
            spec_find_option(options@, name@) == spec_find_option(options@.skip(i as int), name@),
        decreases options@.len() - i,
    {
        let option = &options[i];
        proof {
            assert(options@.skip(i as int)[0] == options@[i as int]);
            assert(options@.skip(i as int).skip(1) =~= options@.skip(i as int + 1));
        }
        if option.name == *name {
            return match &option.value {
                Some(v) => Some(v),
                None => None,
            };
        }
        if let Some(opts) = &option.options {
            proof {
                assert(decreases_to!(options@ => options@[i as int]));
                assert(decreases_to!(options@[i as int] => options@[i as int].options));
                assert(decreases_to!(options@[i as int].options => *opts));
                assert(decreases_to!(*opts => opts@));
            }
            match rec_options(opts, name) {
                Some(v) => {
                    return Some(v);
                },
                None => {},
            }
        }
        i = i + 1;
    }
    None
}

impl Interaction {
    /// The value supplied for the option named `name`, if any.
    pub fn get_value(&self, name: &String) -> (value: Option<&OptionValue>)
        ensures
            match value {
                Some(v) => self.data is Some && self.data->Some_0.options is Some
                    && spec_find_option(self.data->Some_0.options->Some_0@, name@) == Some(*v),
                None => self.data is Some && self.data->Some_0.options is Some
                    ==> spec_find_option(self.data->Some_0.options->Some_0@, name@) is None,
            },
    {
        let data = match &self.data {
            Some(data) => data,
            None => {
                return None;
            },
        };
        let options = match &data.options {
            Some(options) => options,
            None => {
                return None;
            },
        };
        rec_options(options, name)
    }

    /// The name of the invoked command, when a command payload is present.
    pub fn get_name(&self) -> (name: Option<&str>)
        ensures
            match name {
                Some(n) => self.data is Some && n@ == self.data->Some_0.name@,
                None => self.data is None,
            },
    {
        match &self.data {
            Some(data) => Some(data.name.as_str()),
            None => None,
        }
    }

    /// Attach the invoking member's current voice record, so the
    /// command layer can tell which channel the member occupies.
    pub fn update_voice(self, voice: VoiceState) -> (updated: Self)
        ensures
            updated.member.voice == Some(voice),
            updated.member.avatar == self.member.avatar,
            updated.member.nick == self.member.nick,
            updated.member.roles == self.member.roles,
            updated.member.user == self.member.user,
            updated.id == self.id,
            updated.application_id == self.application_id,
            updated.interaction_type == self.interaction_type,
            updated.data == self.data,
            updated.guild_id == self.guild_id,
            updated.channel_id == self.channel_id,
            updated.token == self.token,
    {
        let mut updated = self;
        updated.member.voice = Some(voice);
        updated
    }
}

/// Which user mentions a reply may ping.
#[derive(Debug, Clone)]
pub struct AllowedMentions {
    pub parse: Vec<String>,
    pub roles: Vec<String>,
    pub users: Vec<String>,
    pub replied_user: bool,
}

/// Footer line of an embed.
#[derive(Debug, Clone)]
pub struct EmbedFooter {
    pub text: String,
    pub icon_url: Option<String>,
    pub proxy_icon_url: Option<String>,
}

/// Main image of an embed.
#[derive(Debug, Clone)]
pub struct EmbedImage {
    pub url: Option<String>,
    pub proxy_url: Option<String>,
    pub height: Option<u32>,
    pub width: Option<u32>,
}

/// Thumbnail image of an embed.
#[derive(Debug, Clone)]
pub struct EmbedThumbnail {
    pub url: Option<String>,
    pub proxy_url: Option<String>,
    pub height: Option<u32>,
    pub width: Option<u32>,
}

/// Video attachment of an embed.
#[derive(Debug, Clone)]
pub struct EmbedVideo {
    pub url: Option<String>,
    pub height: Option<u32>,
    pub width: Option<u32>,
}

/// Author line of an embed.
#[derive(Debug, Clone)]
pub struct EmbedAuthor {
    pub name: Option<String>,
    pub url: Option<String>,
    pub icon_url: Option<String>,
    pub proxy_icon_url: Option<String>,
}

/// One name/value row of an embed.
#[derive(Debug, Clone)]
pub struct EmbedField {
    pub name: String,
    pub value: String,
    pub inline: bool,
}

/// A rich content card attached to a reply.
#[derive(Debug, Clone)]
pub struct Embed {
    pub title: Option<String>,
    pub description: Option<String>,
    pub url: Option<String>,
    pub timestamp: Option<String>,
    pub color: Option<u32>,
    pub footer: Option<EmbedFooter>,
    pub image: Option<EmbedImage>,
    pub thumbnail: Option<EmbedThumbnail>,
    pub video: Option<EmbedVideo>,
    pub author: Option<EmbedAuthor>,
    pub fields: Option<Vec<EmbedField>>,
}

impl Embed {
    /// An embed with every part absent.
    pub fn new() -> (embed: Self)
        ensures
            embed == (Embed {
                title: None,
                description: None,
                url: None,
                timestamp: None,
                color: None,
                footer: None,
                image: None,
                thumbnail: None,
                video: None,
                author: None,
                fields: None,
            }),
    {
        Self {
            title: None,
            description: None,
            url: None,
            timestamp: None,
            color: None,
            footer: None,
            image: None,
            thumbnail: None,
            video: None,
            author: None,
            fields: None,
        }
    }

    pub fn set_title(self, title: String) -> (embed: Self)
        ensures
            embed == (Embed { title: Some(title), ..self }),
    {
        let mut embed = self;
        embed.title = Some(title);
        embed
    }

    pub fn set_description(self, description: String) -> (embed: Self)
        ensures
            embed == (Embed { description: Some(description), ..self }),
    {
        let mut embed = self;
        embed.description = Some(description);
        embed
    }

    pub fn set_url(self, url: String) -> (embed: Self)
        ensures
            embed == (Embed { url: Some(url), ..self }),
    {
        let mut embed = self;
        embed.url = Some(url);
        embed
    }

    pub fn set_timestamp(self, timestamp: String) -> (embed: Self)
        ensures
            embed == (Embed { timestamp: Some(timestamp), ..self }),
    {
        let mut embed = self;
        embed.timestamp = Some(timestamp);
        embed
    }

    pub fn set_color(self, color: u32) -> (embed: Self)
        ensures
            embed == (Embed { color: Some(color), ..self }),
    {
        let mut embed = self;
        embed.color = Some(color);
        embed
    }

    pub fn set_footer(self, footer: EmbedFooter) -> (embed: Self)
        ensures
            embed == (Embed { footer: Some(footer), ..self }),
    {
        let mut embed = self;
        embed.footer = Some(footer);
        embed
    }

    pub fn set_image(self, image: EmbedImage) -> (embed: Self)
        ensures
            embed == (Embed { image: Some(image), ..self }),
    {
        let mut embed = self;
        embed.image = Some(image);
        embed
    }

    pub fn set_thumbnail(self, thumbnail: EmbedThumbnail) -> (embed: Self)
        ensures
            embed == (Embed { thumbnail: Some(thumbnail), ..self }),
    {
        let mut embed = self;
        embed.thumbnail = Some(thumbnail);
        embed
    }

    pub fn set_video(self, video: EmbedVideo) -> (embed: Self)
        ensures
            embed == (Embed { video: Some(video), ..self }),
    {
        let mut embed = self;
        embed.video = Some(video);
        embed
    }

    pub fn set_author(self, author: EmbedAuthor) -> (embed: Self)
        ensures
            embed == (Embed { author: Some(author), ..self }),
    {
        let mut embed = self;
        embed.author = Some(author);
        embed
    }

    /// Append one row, starting the list when it is absent.
    pub fn add_field(self, field: EmbedField) -> (embed: Self)
        ensures
            embed.fields is Some,
            self.fields is Some ==> embed.fields->Some_0@ == self.fields->Some_0@.push(field),
            self.fields is None ==> embed.fields->Some_0@ == seq![field],
            embed == (Embed { fields: embed.fields, ..self }),
    {
        let mut embed = self;
        match embed.fields.as_mut() {
            Some(fields) => {
                fields.push(field);
            },
            None => {
                let mut fields: Vec<EmbedField> = Vec::new();
                fields.push(field);
                embed.fields = Some(fields);
            },
        }
        embed
    }
}

/// The body of a reply to an interaction: plain content and embeds.
#[derive(Debug, Clone)]
pub struct InteractionCallbackData {
    pub tts: bool,
    pub content: String,
    pub embeds: Vec<Embed>,
    pub allowed_mentions: Option<AllowedMentions>,
    pub flags: Option<u32>,
}

impl InteractionCallbackData {
    /// An empty, silent reply body.
    pub fn new() -> (data: Self)
        ensures
            data.tts == false,
            data.content@ == Seq::<char>::empty(),
            data.embeds@ == Seq::<Embed>::empty(),
            data.allowed_mentions is None,
            data.flags is None,
    {
        Self {
            tts: false,
            content: String::new(),
            embeds: Vec::new(),
            allowed_mentions: None,
            flags: None,
        }
    }

    pub fn set_content(self, content: String) -> (data: Self)
        ensures
            data == (InteractionCallbackData { content: content, ..self }),
    {
        let mut data = self;
        data.content = content;
        data
    }

    pub fn add_embed(self, embed: Embed) -> (data: Self)
        ensures
            data.embeds@ == self.embeds@.push(embed),
            data == (InteractionCallbackData { embeds: data.embeds, ..self }),
    {
        let mut data = self;
        data.embeds.push(embed);
        data
    }

    pub fn set_flags(self, flags: u32) -> (data: Self)
        ensures
            data == (InteractionCallbackData { flags: Some(flags), ..self }),
    {
        let mut data = self;
        data.flags = Some(flags);
        data
    }
}

/// A typed event handed to the orchestrator, decoded from either
/// session's inbound frames or raised by a timer.
#[derive(Debug)]
pub enum Event {
    /// The session identified successfully; carries the bot's own user.
    Ready(ReadyUser),
    /// The gateway connection should be resumed with the saved token.
    Resume,
    /// The gateway session must be abandoned and identified afresh.
    Reconnect,
    /// A command was invoked.
    InteractionCreate(Interaction),
    /// A user's voice record changed.
    VoiceStateUpdate(VoiceState),
    /// A guild's voice server was assigned or moved.
    VoiceServerUpdate(VoiceServer),
    /// A dispatch payload carried this sequence number.
    ResumeSeq(u64),
    /// The ready payload carried the resume endpoint and session id.
    ResumeProps((String, String)),
    /// The audio-node connection closed and must be re-established.
    LavalinkClosed,
    /// The audio node finished playing the guild's current track.
    TrackEnd(String),
    /// An idle timer elapsed: destroy the guild's player.
    DestroyPlayer(String),
}

} // verus!
