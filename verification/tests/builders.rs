use franta_rust::commands::{format_time, Commands};
use franta_rust::events::{
    Embed, EmbedField, EmbedFooter, InteractionCallbackData, InteractionDataOption, OptionValue,
};
use franta_rust::player::{
    default_platform, has_prefix, search_identifier, total_length, Track, TrackInfo,
};
use franta_rust::toulen::{assign_levels, Player as ToulenPlayer, User as ToulenUser};

fn track_of_length(length: u64) -> Track {
    Track {
        track: "enc".to_string(),
        info: TrackInfo {
            identifier: "id".to_string(),
            author: "author".to_string(),
            length,
            position: 0,
            title: "t".to_string(),
            uri: "u".to_string(),
        },
    }
}

#[test]
fn format_time_without_hours() {
    assert_eq!(format_time(0), "00:00");
    assert_eq!(format_time(59), "00:59");
    assert_eq!(format_time(61), "01:01");
    assert_eq!(format_time(754), "12:34");
}

#[test]
fn format_time_with_hours() {
    assert_eq!(format_time(3600), "01:00:00");
    assert_eq!(format_time(3661), "01:01:01");
    assert_eq!(format_time(45296), "12:34:56");
    // Hours wrap at a day, as the clock text has no day part.
    assert_eq!(format_time(90000), "01:00:00");
}

#[test]
fn embed_builders_fill_the_right_parts() {
    let embed = Embed::new()
        .set_title("title".to_string())
        .set_description("desc".to_string())
        .set_color(0x0080f0)
        .set_footer(EmbedFooter {
            text: "footer".to_string(),
            icon_url: None,
            proxy_icon_url: None,
        })
        .add_field(EmbedField { name: "a".to_string(), value: "1".to_string(), inline: false })
        .add_field(EmbedField { name: "b".to_string(), value: "2".to_string(), inline: true });
    assert_eq!(embed.title, Some("title".to_string()));
    assert_eq!(embed.description, Some("desc".to_string()));
    assert_eq!(embed.color, Some(0x0080f0));
    assert_eq!(embed.footer.as_ref().unwrap().text, "footer");
    let fields = embed.fields.as_ref().unwrap();
    assert_eq!(fields.len(), 2);
    assert_eq!(fields[0].name, "a");
    assert_eq!(fields[1].name, "b");
    assert!(embed.url.is_none());
    assert!(embed.image.is_none());
}

#[test]
fn callback_data_builders() {
    let data = InteractionCallbackData::new();
    assert!(!data.tts);
    assert_eq!(data.content, "");
    assert!(data.embeds.is_empty());
    assert!(data.flags.is_none());
    let data = data.set_content("hello".to_string()).add_embed(Embed::new()).set_flags(64);
    assert_eq!(data.content, "hello");
    assert_eq!(data.embeds.len(), 1);
    assert_eq!(data.flags, Some(64));
}

#[test]
fn command_set_has_the_five_commands() {
    let commands = Commands::new().commands;
    assert_eq!(commands.len(), 5);
    let names: Vec<&str> = commands.iter().map(|c| c.name.as_str()).collect();
    assert_eq!(names, ["join", "leave", "play", "pause", "skip"]);
    for command in &commands {
        assert_eq!(command.command_type, 1);
        assert!(command.name_localizations.is_some());
        assert!(command.description_localizations.is_some());
    }
}

#[test]
fn play_command_carries_query_and_platform() {
    let commands = Commands::new().commands;
    let play = &commands[2];
    assert_eq!(play.options.len(), 2);
    let query = &play.options[0];
    assert_eq!(query.name, "query");
    assert_eq!(query.option_type, 3);
    assert!(query.required);
    let platform = &play.options[1];
    assert_eq!(platform.name, "platform");
    assert!(!platform.required);
    assert_eq!(platform.choices.len(), 3);
    let values: Vec<&str> = platform.choices.iter().map(|c| c.value.as_str()).collect();
    assert_eq!(values, ["ytsearch", "ytmsearch", "scsearch"]);
}

#[test]
fn pause_command_carries_the_flag_option() {
    let commands = Commands::new().commands;
    let pause = &commands[3];
    assert_eq!(pause.options.len(), 1);
    assert_eq!(pause.options[0].name, "paused");
    assert_eq!(pause.options[0].option_type, 5);
    assert!(pause.options[0].required);
}

#[test]
fn companion_command_set() {
    let commands = Commands::toulen().commands;
    assert_eq!(commands.len(), 1);
    let ts = &commands[0];
    assert_eq!(ts.name, "ts");
    assert!(ts.name_localizations.is_none());
    assert_eq!(ts.options.len(), 2);
    assert_eq!(ts.options[0].name, "leaderboard");
    assert_eq!(ts.options[1].name, "download");
}

#[test]
fn option_search_descends_into_subcommands() {
    let interaction = franta_rust::events::Interaction {
        id: "i".to_string(),
        application_id: "a".to_string(),
        interaction_type: 2,
        data: Some(franta_rust::events::InteractionData {
            id: "d".to_string(),
            name: "play".to_string(),
            options: Some(vec![InteractionDataOption {
                name: "sub".to_string(),
                value: None,
                options: Some(vec![InteractionDataOption {
                    name: "query".to_string(),
                    value: Some(OptionValue::Text("a song".to_string())),
                    options: None,
                }]),
            }]),
        }),
        guild_id: "G".to_string(),
        channel_id: "C".to_string(),
        member: franta_rust::events::Member {
            avatar: None,
            nick: None,
            roles: Vec::new(),
            user: franta_rust::events::User {
                avatar: None,
                discriminator: "1".to_string(),
                id: "u".to_string(),
                public_flags: 0,
                username: "u".to_string(),
            },
            voice: None,
        },
        token: "t".to_string(),
    };
    match interaction.get_value(&"query".to_string()) {
        Some(OptionValue::Text(text)) => assert_eq!(text, "a song"),
        other => panic!("unexpected: {other:?}"),
    }
    assert!(interaction.get_value(&"missing".to_string()).is_none());
    assert_eq!(interaction.get_name(), Some("play"));
}

#[test]
fn platform_defaults_depend_on_the_query() {
    assert_eq!(default_platform(Some("scsearch".to_string()), "anything"), Some("scsearch".to_string()));
    assert_eq!(default_platform(None, "https://tracks.example/x"), None);
    assert_eq!(default_platform(None, "http://tracks.example/x"), None);
    assert_eq!(default_platform(None, "some song"), Some("ytsearch".to_string()));
    assert_eq!(default_platform(None, "httpsong"), Some("ytsearch".to_string()));
}

#[test]
fn prefix_test_is_exact() {
    assert!(has_prefix("https://x", "https://"));
    assert!(!has_prefix("http", "https://"));
    assert!(!has_prefix("xhttps://", "https://"));
    assert!(has_prefix("abc", ""));
}

#[test]
fn search_identifier_prefixes_the_platform() {
    assert_eq!(search_identifier("a song", Some("ytsearch")), "ytsearch:a song");
    assert_eq!(search_identifier("https://x", None), "https://x");
}

#[test]
fn total_length_sums_and_guards_overflow() {
    let tracks = vec![track_of_length(1000), track_of_length(2345)];
    assert_eq!(total_length(&tracks), Some(3345));
    assert_eq!(total_length(&Vec::new()), Some(0));
    let tracks = vec![track_of_length(u64::MAX), track_of_length(1)];
    assert_eq!(total_length(&tracks), None);
}

#[test]
fn leaderboard_levels_are_summed() {
    let players = vec![
        ToulenPlayer {
            auto_lvl: 3,
            regen_lvl: 4,
            stamina_lvl: 5,
            user: ToulenUser { name: "a".to_string() },
            level: None,
        },
        ToulenPlayer {
            auto_lvl: 0,
            regen_lvl: 0,
            stamina_lvl: 0,
            user: ToulenUser { name: "b".to_string() },
            level: None,
        },
    ];
    let leveled = assign_levels(players);
    assert_eq!(leveled.len(), 2);
    assert_eq!(leveled[0].level, Some(12));
    assert_eq!(leveled[0].user.name, "a");
    assert_eq!(leveled[1].level, Some(0));
}
