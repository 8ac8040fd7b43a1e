use yuribot::bot::{get_arg, Command, CommandEntity};
use yuribot::db::escape_fts;
use yuribot::db::model::NewLink;
use yuribot::parse_args::{parse_args, Action, ArgFlags};
use yuribot::reddit_api::Link;
use yuribot::scrapper::{is_image_url, new_links};
use yuribot::settings::default_user_agent;
use yuribot::utils::utf8_pos_from_utf16;

#[test]
fn test_escape_fts() {
    assert_eq!("\"test string 132\"", escape_fts("test string 132"));
    assert_eq!(
        "\"test \"\"string\"\" 132\"",
        escape_fts("test \"string\" 132")
    );
}

#[test]
fn escape_fts_empty_and_unicode() {
    assert_eq!(escape_fts(""), "\"\"");
    assert_eq!(escape_fts("é\"ü"), "\"é\"\"ü\"");
}

#[test]
fn image_urls_by_extension() {
    assert!(is_image_url("https://i.example/a.png"));
    assert!(is_image_url("https://i.example/a.jpg"));
    assert!(is_image_url("https://i.example/a.jpeg"));
    assert!(!is_image_url("https://i.example/a.gif"));
    assert!(!is_image_url("https://i.example/a.png?x=1"));
    assert!(!is_image_url("png"));
    assert!(!is_image_url(""));
}

#[test]
fn new_links_keeps_images_in_order() {
    let posts = vec![
        Link { title: "a".to_string(), url: "https://x/a.png".to_string() },
        Link { title: "b".to_string(), url: "https://x/b.html".to_string() },
        Link { title: "c".to_string(), url: "https://x/c.jpeg".to_string() },
    ];
    let batch: Vec<NewLink> = new_links(&posts);
    assert_eq!(batch.len(), 2);
    assert_eq!(batch[0].link, "https://x/a.png");
    assert_eq!(batch[0].title, "a");
    assert_eq!(batch[1].link, "https://x/c.jpeg");
    assert_eq!(batch[1].title, "c");
}

#[test]
fn utf16_offsets_to_utf8() {
    assert_eq!(utf8_pos_from_utf16("abc", 0), Some(0));
    assert_eq!(utf8_pos_from_utf16("abc", 3), Some(3));
    assert_eq!(utf8_pos_from_utf16("abc", 4), None);
    assert_eq!(utf8_pos_from_utf16("éa", 1), Some(2));
    assert_eq!(utf8_pos_from_utf16("😀a", 2), Some(4));
    assert_eq!(utf8_pos_from_utf16("😀a", 1), None);
    assert_eq!(utf8_pos_from_utf16("😀a", 3), Some(5));
    assert_eq!(utf8_pos_from_utf16("", 0), Some(0));
}

fn command(len: i64) -> Option<CommandEntity> {
    Some(CommandEntity { is_bot_command: true, offset: 0, length: len })
}

#[test]
fn commands_are_recognised() {
    assert_eq!(
        Command::from_message("@bot", "/more cats", command(5)),
        Some((Command::More { arg: 5 }, false))
    );
    assert_eq!(
        Command::from_message("@bot", "/count@bot x", command(10)),
        Some((Command::Count { arg: 10 }, true))
    );
    assert_eq!(
        Command::from_message("@bot", "/version", command(8)),
        Some((Command::Version, false))
    );
    assert_eq!(
        Command::from_message("@bot", "/hello@bot", command(10)),
        Some((Command::Unrecognized, true))
    );
}

#[test]
fn non_commands_are_ignored() {
    assert_eq!(Command::from_message("@bot", "/more", None), None);
    let not_command = Some(CommandEntity { is_bot_command: false, offset: 0, length: 5 });
    assert_eq!(Command::from_message("@bot", "/more", not_command), None);
    let later = Some(CommandEntity { is_bot_command: true, offset: 2, length: 5 });
    assert_eq!(Command::from_message("@bot", "a /more", later), None);
    assert_eq!(Command::from_message("@bot", "/more", command(-1)), None);
    assert_eq!(Command::from_message("@bot", "/more", command(9)), None);
}

#[test]
fn command_argument_is_trimmed() {
    assert_eq!(get_arg("/more  yuri cats  ", 5), "yuri cats");
    assert_eq!(get_arg("/more", 5), "");
    assert_eq!(get_arg("/mörë ä ", 5), "ä");
}

#[test]
fn actions_from_flags() {
    let none = ArgFlags {
        help: false,
        seed: false,
        seed_limit: Some(200),
        purge: false,
        dry_run: false,
        start_at_id: Some(0),
    };
    assert!(matches!(parse_args(Some(none)), Action::RunBot));
    assert!(matches!(parse_args(None), Action::Help(h) if h == "Failed while parsing args"));
    assert!(matches!(parse_args(Some(ArgFlags { help: true, seed: true, ..none })), Action::Help(h) if h.is_empty()));
    assert!(matches!(
        parse_args(Some(ArgFlags { seed: true, seed_limit: Some(40), purge: true, ..none })),
        Action::SeedDatabase { limit: 40 }
    ));
    assert!(matches!(
        parse_args(Some(ArgFlags { seed: true, seed_limit: None, ..none })),
        Action::Help(h) if h == "failed to parse --seed argument to integer"
    ));
    assert!(matches!(
        parse_args(Some(ArgFlags { purge: true, dry_run: true, start_at_id: Some(12), ..none })),
        Action::PurgeLinks { dry_run: true, start_at_id: 12 }
    ));
    assert!(matches!(
        parse_args(Some(ArgFlags { purge: true, start_at_id: None, ..none })),
        Action::Help(_)
    ));
}

#[test]
fn user_agent_default() {
    assert_eq!(default_user_agent("1.2.0"), "yuribot_rs/1.2.0");
}
