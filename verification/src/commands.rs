//! Builders for the application commands the bot registers, and the
//! fixed command set it ships with.

use vstd::prelude::*;

verus! {

/// The localised name of a command or option.
#[derive(Debug, Clone)]
pub struct NameLocalization {
    pub cs: String,
}

/// The localised description of a command or option.
#[derive(Debug, Clone)]
pub struct DescLocalization {
    pub cs: String,
}

/// One selectable value of a command option.
#[derive(Debug, Clone)]
pub struct ApplicationCommandOptionChoice {
    pub name: String,
    pub value: String,
}

/// One option of an application command; options nest for
/// subcommands.
#[derive(Debug)]
pub struct ApplicationCommandOption {
    pub name: String,
    pub description: String,
    pub name_localizations: Option<NameLocalization>,
    pub description_localizations: Option<DescLocalization>,
    pub option_type: u32,
    pub required: bool,
    pub choices: Vec<ApplicationCommandOptionChoice>,
    pub options: Vec<ApplicationCommandOption>,
}

impl ApplicationCommandOption {
    /// A bare option with no localisation, choices or sub-options.
    pub fn new(name: String, description: String, option_type: u32, required: bool) -> (option:
        Self)
        ensures
            option.name == name,
            option.description == description,
            option.name_localizations is None,
            option.description_localizations is None,
            option.option_type == option_type,
            option.required == required,
            option.choices@ == Seq::<ApplicationCommandOptionChoice>::empty(),
            option.options@ == Seq::<ApplicationCommandOption>::empty(),
    {
        Self {
            name,
            name_localizations: None,
            description,
            description_localizations: None,
            option_type,
            required,
            choices: Vec::new(),
            options: Vec::new(),
        }
    }

    pub fn add_choice(&mut self, choice: ApplicationCommandOptionChoice)
        ensures
            final(self).choices@ == old(self).choices@.push(choice),
            *final(self) == (ApplicationCommandOption {
                choices: final(self).choices,
                ..*old(self)
            }),
    {
        self.choices.push(choice);
    }

    pub fn add_option(&mut self, option: ApplicationCommandOption)
        ensures
            final(self).options@ == old(self).options@.push(option),
            *final(self) == (ApplicationCommandOption {
                options: final(self).options,
                ..*old(self)
            }),
    {
        self.options.push(option);
    }

    pub fn set_name_loc(self, name: &str) -> (option: Self)
        ensures
            option.name_localizations matches Some(loc) && loc.cs@ == name@,
            option == (ApplicationCommandOption {
                name_localizations: option.name_localizations,
                ..self
            }),
    {
        let mut option = self;
        option.name_localizations = Some(NameLocalization { cs: String::from_str(name) });
        option
    }

    pub fn set_desc_loc(self, desc: &str) -> (option: Self)
        ensures
            option.description_localizations matches Some(loc) && loc.cs@ == desc@,
            option == (ApplicationCommandOption {
                description_localizations: option.description_localizations,
                ..self
            }),
    {
        let mut option = self;
        option.description_localizations = Some(DescLocalization { cs: String::from_str(desc) });
        option
    }
}

/// An application command to register with the chat service.
#[derive(Debug)]
pub struct ApplicationCommand {
    pub command_type: u32,
    pub name: String,
    pub description: String,
    pub options: Vec<ApplicationCommandOption>,
    pub name_localizations: Option<NameLocalization>,
    pub description_localizations: Option<DescLocalization>,
}

impl ApplicationCommand {
    /// A bare command with no options or localisation.
    pub fn new(command_type: u32, name: String, description: String) -> (command: Self)
        ensures
            command.command_type == command_type,
            command.name == name,
            command.description == description,
            command.options@ == Seq::<ApplicationCommandOption>::empty(),
            command.name_localizations is None,
            command.description_localizations is None,
    {
        Self {
            command_type,
            name,
            description,
            options: Vec::new(),
            name_localizations: None,
            description_localizations: None,
        }
    }

    pub fn add_option(&mut self, option: ApplicationCommandOption)
        ensures
            final(self).options@ == old(self).options@.push(option),
            *final(self) == (ApplicationCommand { options: final(self).options, ..*old(self) }),
    {
        self.options.push(option);
    }

    pub fn set_name_loc(self, name: &str) -> (command: Self)
        ensures
            command.name_localizations matches Some(loc) && loc.cs@ == name@,
            command == (ApplicationCommand {
                name_localizations: command.name_localizations,
                ..self
            }),
    {
        let mut command = self;
        command.name_localizations = Some(NameLocalization { cs: String::from_str(name) });
        command
    }

    pub fn set_desc_loc(self, desc: &str) -> (command: Self)
        ensures
            command.description_localizations matches Some(loc) && loc.cs@ == desc@,
            command == (ApplicationCommand {
                description_localizations: command.description_localizations,
                ..self
            }),
    {
        let mut command = self;
        command.description_localizations = Some(DescLocalization { cs: String::from_str(desc) });
        command
    }
}

/// The digit character of one decimal digit.
pub open spec fn spec_digit(d: int) -> char {
    if d == 0 {
        '0'
    } else if d == 1 {
        '1'
    } else if d == 2 {
        '2'
    } else if d == 3 {
        '3'
    } else if d == 4 {
        '4'
    } else if d == 5 {
        '5'
    } else if d == 6 {
        '6'
    } else if d == 7 {
        '7'
    } else if d == 8 {
        '8'
    } else {
        '9'
    }
}

/// A number under one hundred, written with exactly two digits.
pub open spec fn spec_two_digits(n: int) -> Seq<char> {
    seq![spec_digit(n / 10), spec_digit(n % 10)]
}

/// A duration in seconds as clock text: hours, minutes and seconds
/// as two digits each, the hours part only when it is not zero.
pub open spec fn spec_format_time(time: u64) -> Seq<char> {
    let seconds = (time as int) % 60;
    let minutes = ((time as int) / 60) % 60;
    let hours = ((time as int) / 3600) % 24;
    if hours > 0 {
        spec_two_digits(hours) + seq![':'] + spec_two_digits(minutes) + seq![':']
            + spec_two_digits(seconds)
    } else {
        spec_two_digits(minutes) + seq![':'] + spec_two_digits(seconds)
    }
}

/// One decimal digit as text.
fn digit_str(d: u64) -> (text: &'static str)
    requires
        d < 10,
    ensures
        text@ == seq![spec_digit(d as int)],
{
    if d == 0 {
        proof {
            reveal_strlit("0");
        }
        "0"
    } else if d == 1 {
        proof {
            reveal_strlit("1");
        }
        "1"
    } else if d == 2 {
        proof {
            reveal_strlit("2");
        }
        "2"
    } else if d == 3 {
        proof {
            reveal_strlit("3");
        }
        "3"
    } else if d == 4 {
        proof {
            reveal_strlit("4");
        }
        "4"
    } else if d == 5 {
        proof {
            reveal_strlit("5");
        }
        "5"
    } else if d == 6 {
        proof {
            reveal_strlit("6");
        }
        "6"
    } else if d == 7 {
        proof {
            reveal_strlit("7");
        }
        "7"
    } else if d == 8 {
        proof {
            reveal_strlit("8");
        }
        "8"
    } else {
        proof {
            reveal_strlit("9");
        }
        "9"
    }
}

/// Append a number under one hundred as exactly two digits.
fn push_two_digits(text: &mut String, n: u64)
    requires
        n < 100,
    ensures
        final(text)@ == old(text)@ + spec_two_digits(n as int),
{
    text.append(digit_str(n / 10));
    text.append(digit_str(n % 10));
}

/// A duration in seconds as clock text, e.g. minutes and seconds as
/// `04:05`, with a leading hours part when one is due.
pub fn format_time(time: u64) -> (text: String)
    ensures
        text@ == spec_format_time(time),
{
    let seconds = time % 60;
    let minutes = (time / 60) % 60;
    let hours = (time / 3600) % 24;
    let mut text = String::new();
    if hours > 0 {
        push_two_digits(&mut text, hours);
        proof {
            reveal_strlit(":");
        }
        text.append(":");
        push_two_digits(&mut text, minutes);
        text.append(":");
        push_two_digits(&mut text, seconds);
        proof {
            assert(text@ =~= spec_format_time(time));
        }
    } else {
        push_two_digits(&mut text, minutes);
        proof {
            reveal_strlit(":");
        }
        text.append(":");
        push_two_digits(&mut text, seconds);
        proof {
            assert(text@ =~= spec_format_time(time));
        }
    }
    text
}

/// A set of commands ready to register.
#[derive(Debug)]
pub struct Commands {
    pub commands: Vec<ApplicationCommand>,
}

/// A localised pair is present and holds the given texts.
pub open spec fn localized(
    name_loc: Option<NameLocalization>,
    desc_loc: Option<DescLocalization>,
    name: Seq<char>,
    desc: Seq<char>,
) -> bool {
    &&& name_loc matches Some(l) && l.cs@ == name
    &&& desc_loc matches Some(l) && l.cs@ == desc
}

/// The command that joins the caller's voice channel.
pub open spec fn is_join_command(c: ApplicationCommand) -> bool {
    &&& c.command_type == 1u32
    &&& c.name@ == "join"@
    &&& c.description@ == "joins the voice channel"@
    &&& c.options@.len() == 0
    &&& localized(
        c.name_localizations,
        c.description_localizations,
        "připojit"@,
        "připojí bota do roomky"@,
    )
}

/// The command that leaves the voice channel.
pub open spec fn is_leave_command(c: ApplicationCommand) -> bool {
    &&& c.command_type == 1u32
    &&& c.name@ == "leave"@
    &&& c.description@ == "leaves the voice channel"@
    &&& c.options@.len() == 0
    &&& localized(
        c.name_localizations,
        c.description_localizations,
        "odpojit"@,
        "odpojí bota z roomky"@,
    )
}

/// The command that searches and enqueues a track: a required query
/// option and an optional platform option with three choices.
pub open spec fn is_play_command(c: ApplicationCommand) -> bool {
    &&& c.command_type == 1u32
    &&& c.name@ == "play"@
    &&& c.description@ == "plays a song"@
    &&& localized(c.name_localizations, c.description_localizations, "hraj"@, "přehraje song"@)
    &&& c.options@.len() == 2
    &&& ({
        let q = c.options@[0];
        &&& q.name@ == "query"@
        &&& q.description@ == "song to play"@
        &&& q.option_type == 3u32
        &&& q.required == true
        &&& localized(
            q.name_localizations,
            q.description_localizations,
            "vyhledávání"@,
            "song k přehrávání"@,
        )
        &&& q.choices@.len() == 0
        &&& q.options@.len() == 0
    })
    &&& ({
        let p = c.options@[1];
        &&& p.name@ == "platform"@
        &&& p.description@ == "platform to search on"@
        &&& p.option_type == 3u32
        &&& p.required == false
        &&& localized(
            p.name_localizations,
            p.description_localizations,
            "platforma"@,
            "platforma pro vyhledávání"@,
        )
        &&& p.options@.len() == 0
        &&& p.choices@.len() == 3
        &&& p.choices@[0].name@ == "YouTube"@ && p.choices@[0].value@ == "ytsearch"@
        &&& p.choices@[1].name@ == "YouTube Music"@ && p.choices@[1].value@ == "ytmsearch"@
        &&& p.choices@[2].name@ == "SoundCloud"@ && p.choices@[2].value@ == "scsearch"@
    })
}

/// The command that pauses or resumes playback: one required flag.
pub open spec fn is_pause_command(c: ApplicationCommand) -> bool {
    &&& c.command_type == 1u32
    &&& c.name@ == "pause"@
    &&& c.description@ == "pauses the current song"@
    &&& localized(
        c.name_localizations,
        c.description_localizations,
        "pauza"@,
        "pauzuje přehrávání"@,
    )
    &&& c.options@.len() == 1
    &&& ({
        let o = c.options@[0];
        &&& o.name@ == "paused"@
        &&& o.description@ == "pause or unpause"@
        &&& o.option_type == 5u32
        &&& o.required == true
        &&& localized(
            o.name_localizations,
            o.description_localizations,
            "pauza"@,
            "pauza nebo pokračování"@,
        )
        &&& o.choices@.len() == 0
        &&& o.options@.len() == 0
    })
}

/// The command that skips the current track.
pub open spec fn is_skip_command(c: ApplicationCommand) -> bool {
    &&& c.command_type == 1u32
    &&& c.name@ == "skip"@
    &&& c.description@ == "skips the current song"@
    &&& c.options@.len() == 0
    &&& localized(
        c.name_localizations,
        c.description_localizations,
        "přeskočit"@,
        "přeskočí song"@,
    )
}

/// The companion command with its two subcommands.
pub open spec fn is_ts_command(c: ApplicationCommand) -> bool {
    &&& c.command_type == 1u32
    &&& c.name@ == "ts"@
    &&& c.description@ == "ToulenSniffer comannnds"@
    &&& c.name_localizations is None
    &&& c.description_localizations matches Some(l) && l.cs@ == "ToulenSniffer commandy"@
    &&& c.options@.len() == 2
    &&& ({
        let o = c.options@[0];
        &&& o.name@ == "leaderboard"@
        &&& o.description@ == "shows top players"@
        &&& o.option_type == 1u32
        &&& o.required == false
        &&& localized(
            o.name_localizations,
            o.description_localizations,
            "žebříčky"@,
            "zobrazí top hráče"@,
        )
        &&& o.choices@.len() == 0
        &&& o.options@.len() == 0
    })
    &&& ({
        let o = c.options@[1];
        &&& o.name@ == "download"@
        &&& o.description@ == "ToulenSniffer download"@
        &&& o.option_type == 1u32
        &&& o.required == false
        &&& localized(
            o.name_localizations,
            o.description_localizations,
            "stáhnout"@,
            "odkaz na stažení ToulenSniffer"@,
        )
        &&& o.choices@.len() == 0
        &&& o.options@.len() == 0
    })
}

impl Commands {
    /// The playback command set: join, leave, play, pause and skip.
    pub fn new() -> (commands: Self)
        ensures
            commands.commands@.len() == 5,
            is_join_command(commands.commands@[0]),
            is_leave_command(commands.commands@[1]),
            is_play_command(commands.commands@[2]),
            is_pause_command(commands.commands@[3]),
            is_skip_command(commands.commands@[4]),
    {
        let join_cmd = ApplicationCommand::new(
            1,
            String::from_str("join"),
            String::from_str("joins the voice channel"),
        ).set_name_loc("připojit").set_desc_loc("připojí bota do roomky");

        let leave_cmd = ApplicationCommand::new(
            1,
            String::from_str("leave"),
            String::from_str("leaves the voice channel"),
        ).set_name_loc("odpojit").set_desc_loc("odpojí bota z roomky");

        let mut play_cmd = ApplicationCommand::new(
            1,
            String::from_str("play"),
            String::from_str("plays a song"),
        ).set_name_loc("hraj").set_desc_loc("přehraje song");

        play_cmd.add_option(
            ApplicationCommandOption::new(
                String::from_str("query"),
                String::from_str("song to play"),
                3,
                true,
            ).set_name_loc("vyhledávání").set_desc_loc("song k přehrávání"),
        );

        let mut platform_choice = ApplicationCommandOption::new(
            String::from_str("platform"),
            String::from_str("platform to search on"),
            3,
            false,
        ).set_name_loc("platforma").set_desc_loc("platforma pro vyhledávání");

        platform_choice.add_choice(
            ApplicationCommandOptionChoice {
                name: String::from_str("YouTube"),
                value: String::from_str("ytsearch"),
            },
        );

        platform_choice.add_choice(
            ApplicationCommandOptionChoice {
                name: String::from_str("YouTube Music"),
                value: String::from_str("ytmsearch"),
            },
        );

        platform_choice.add_choice(
            ApplicationCommandOptionChoice {
                name: String::from_str("SoundCloud"),
                value: String::from_str("scsearch"),
            },
        );

        play_cmd.add_option(platform_choice);

        let mut pause_cmd = ApplicationCommand::new(
            1,
            String::from_str("pause"),
            String::from_str("pauses the current song"),
        ).set_name_loc("pauza").set_desc_loc("pauzuje přehrávání");

        pause_cmd.add_option(
            ApplicationCommandOption::new(
                String::from_str("paused"),
                String::from_str("pause or unpause"),
                5,
                true,
            ).set_name_loc("pauza").set_desc_loc("pauza nebo pokračování"),
        );

        let skip_cmd = ApplicationCommand::new(
            1,
            String::from_str("skip"),
            String::from_str("skips the current song"),
        ).set_name_loc("přeskočit").set_desc_loc("přeskočí song");

        let mut commands: Vec<ApplicationCommand> = Vec::new();
        commands.push(join_cmd);
        commands.push(leave_cmd);
        commands.push(play_cmd);
        commands.push(pause_cmd);
        commands.push(skip_cmd);
        Self { commands }
    }

    /// The companion command set: the single subcommand group.
    pub fn toulen() -> (commands: Self)
        ensures
            commands.commands@.len() == 1,
            is_ts_command(commands.commands@[0]),
    {
        let mut ts_cmds = ApplicationCommand::new(
            1,
            String::from_str("ts"),
            String::from_str("ToulenSniffer comannnds"),
        ).set_desc_loc("ToulenSniffer commandy");

        ts_cmds.add_option(
            ApplicationCommandOption::new(
                String::from_str("leaderboard"),
                String::from_str("shows top players"),
                1,
                false,
            ).set_name_loc("žebříčky").set_desc_loc("zobrazí top hráče"),
        );

        ts_cmds.add_option(
            ApplicationCommandOption::new(
                String::from_str("download"),
                String::from_str("ToulenSniffer download"),
                1,
                false,
            ).set_name_loc("stáhnout").set_desc_loc("odkaz na stažení ToulenSniffer"),
        );

        let mut commands: Vec<ApplicationCommand> = Vec::new();
        commands.push(ts_cmds);
        Self { commands }
    }
}

} // verus!
