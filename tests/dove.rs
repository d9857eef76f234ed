use dove::chat::{App, ChatCommand, CommandContext, CommandKind, Effect, GuiMessage};
use dove::config::{self, StoredToken};
use dove::crypto::aes256::{self, decrypt, decrypt_string, encrypt_string};
use dove::crypto::{get_key, get_machine_summary, mac_sum, push_decimal, HostFacts};
use dove::events::{ChannelSummary, DiscordCommEvent, GuildSummary, ReceivedMessage};
use dove::guard::contains_secret_like;
use dove::session::{Action, ChannelListing, ClientOutcome, DiscordManager};

fn sample_facts() -> HostFacts {
    HostFacts {
        arch: "x86_64".to_string(),
        sys_name: "Linux".to_string(),
        host_name: "Linux".to_string(),
        distro: "arch".to_string(),
        total_memory: 16777216,
        component_count: 3,
        critical_temp_text: "210".to_string(),
        mac_addresses: vec![[1, 2, 3, 4, 5, 6], [0, 0, 0, 0, 0, 255]],
    }
}

fn last_message(app: &App) -> &GuiMessage {
    app.messages().last().unwrap()
}

fn error_text(a: &Action) -> Option<String> {
    match a {
        Action::SendToGui(DiscordCommEvent::Error(m)) => Some(m.clone()),
        _ => None,
    }
}

#[test]
fn test_encrypt_decrypt() {
    let key = get_key(&get_machine_summary(&sample_facts()));
    let plain = "Hello there 123 .-_?/".to_string();
    let encrypted = encrypt_string(&key, plain.to_owned()).ok().unwrap();
    let decrypted = decrypt_string(&key, encrypted).ok().unwrap();

    assert_eq!(plain, decrypted);
}

#[test]
fn test_rng() {
    let seed = "Hello there this is a test seed";

    let buf1 = get_key(seed);
    let buf2 = get_key(seed);

    for i in 0..10 {
        assert_eq!(buf1[i], buf2[i]);
    }
}

#[test]
fn test_machine_summary() {
    for _i in 0..5 {
        let summ1 = get_machine_summary(&sample_facts());
        let summ2 = get_machine_summary(&sample_facts());

        assert_eq!(summ1, summ2);
    }
}

#[test]
fn machine_summary_layout() {
    assert_eq!(
        get_machine_summary(&sample_facts()),
        "x86_64|Linux|Linux|arch|16777216|3|210|276"
    );
}

#[test]
fn mac_sum_adds_every_byte() {
    assert_eq!(mac_sum(&vec![]), 0);
    assert_eq!(mac_sum(&vec![[255; 6], [1, 0, 0, 0, 0, 0]]), 1531);
}

#[test]
fn decimal_rendering() {
    let mut s = String::from("n=");
    push_decimal(&mut s, 0);
    assert_eq!(s, "n=0");
    let mut t = String::new();
    push_decimal(&mut t, u64::MAX);
    assert_eq!(t, "18446744073709551615");
}

#[test]
fn key_is_stable_for_one_summary() {
    let a = get_key(&get_machine_summary(&sample_facts()));
    let b = get_key(&get_machine_summary(&sample_facts()));
    assert_eq!(a, b);
}

#[test]
fn key_differs_between_summaries() {
    assert_ne!(get_key("host one"), get_key("host two"));
    assert_ne!(get_key("host one"), [0u8; 32]);
}

#[test]
fn ciphertext_is_not_the_plaintext() {
    let key = get_key("host");
    let c = encrypt_string(&key, "secret".to_string()).ok().unwrap();
    assert_eq!(c.len(), "secret".len() + 16);
    assert_ne!(&c[..6], "secret".as_bytes());
}

#[test]
fn decrypt_under_other_key_fails() {
    let key_a = get_key("host a");
    let key_b = get_key("host b");
    let c = encrypt_string(&key_a, "my.token.value".to_string()).ok().unwrap();
    let r = decrypt_string(&key_b, c.clone());
    assert!(matches!(r, Err(aes256::Error::Lib(_))));
    assert!(matches!(decrypt(&key_b, c), Err(aes256::Error::Lib(_))));
}

#[test]
fn decrypt_of_corrupted_bytes_fails() {
    let key = get_key("host");
    let mut c = encrypt_string(&key, "abc".to_string()).ok().unwrap();
    c[0] ^= 1;
    assert!(matches!(decrypt(&key, c), Err(aes256::Error::Lib(_))));
    assert!(matches!(decrypt(&key, vec![1, 2, 3]), Err(aes256::Error::Lib(_))));
}

#[test]
fn decrypt_round_trip_bytes() {
    let key = get_key("host");
    let c = encrypt_string(&key, "".to_string()).ok().unwrap();
    assert_eq!(decrypt(&key, c).ok().unwrap(), Vec::<u8>::new());
}

#[test]
fn token_file_path_under_config_root() {
    assert_eq!(config::dir_under(Some("/home/u/.config".to_string())), "/home/u/.config/Wolfyxon/dove");
    assert_eq!(
        config::token_file_path_under(Some("/home/u/.config".to_string())),
        "/home/u/.config/Wolfyxon/dove/DO_NOT_SHARE.dat"
    );
    assert_eq!(config::token_file_path_under(None), "dove/DO_NOT_SHARE.dat");
}

#[test]
fn token_file_path_here() {
    let dir = config::get_dir();
    let path = config::get_token_file_path();
    assert!(dir.ends_with("dove"));
    assert_eq!(path, format!("{}/DO_NOT_SHARE.dat", dir));
}

#[test]
fn saved_token_reads_back() {
    let key = get_key("host");
    let bytes = config::save_token(&key, "abc.def.ghi".to_string()).ok().unwrap();
    let token = config::get_token(&key, StoredToken::Bytes(bytes)).ok().unwrap();
    assert_eq!(token, "abc.def.ghi");
}

#[test]
fn missing_token_file_is_not_found() {
    let key = get_key("host");
    assert!(matches!(config::get_token(&key, StoredToken::Missing), Err(config::Error::NotFound)));
}

#[test]
fn unreadable_token_file_is_io_error() {
    let key = get_key("host");
    match config::get_token(&key, StoredToken::Unreadable("denied".to_string())) {
        Err(e @ config::Error::Io(_)) => assert_eq!(e.message(), "denied"),
        _ => panic!("expected an I/O error"),
    }
}

#[test]
fn token_from_other_host_is_decryption_error() {
    let bytes = config::save_token(&get_key("a"), "tok".to_string()).ok().unwrap();
    assert!(matches!(
        config::get_token(&get_key("b"), StoredToken::Bytes(bytes)),
        Err(config::Error::Aes256(aes256::Error::Lib(_)))
    ));
}

#[test]
fn secret_shaped_text_is_caught() {
    let a = "A".repeat(16);
    let b = "b_-9Z".to_string();
    let c = "c".repeat(16);
    assert!(contains_secret_like(&format!("{}.{}.{}", a, b, c)));
    assert!(contains_secret_like(&format!("my token is {}.{}.{} ok", a, b, c)));
    assert!(contains_secret_like(&format!("x.{}.{}.{}", "Q".repeat(20), "w".repeat(9), "E".repeat(30))));
}

#[test]
fn prose_is_not_secret_like() {
    assert!(!contains_secret_like("Hello there, how are you doing today? Fine. Thanks."));
    assert!(!contains_secret_like(""));
}

#[test]
fn two_parts_are_not_secret_like() {
    assert!(!contains_secret_like(&format!("{}.{}", "A".repeat(30), "B".repeat(30))));
}

#[test]
fn short_parts_are_not_secret_like() {
    let a = "A".repeat(16);
    let c = "C".repeat(16);
    assert!(!contains_secret_like(&format!("{}.{}.{}", "A".repeat(15), "bbbbb", c)));
    assert!(!contains_secret_like(&format!("{}.{}.{}", a, "bbbb", c)));
    assert!(!contains_secret_like(&format!("{}.{}.{}", a, "bbbbb", "C".repeat(15))));
    assert!(!contains_secret_like(&format!("{}.{} {}.{}", a, "bbbbb", "x", c)));
}

#[test]
fn second_login_replaces_first() {
    let mut m = DiscordManager::new();
    let first = m.process_event(DiscordCommEvent::Login("secretA".to_string()));
    assert_eq!(first.len(), 1);
    assert!(matches!(&first[0], Action::StartClient(0, t) if t == "secretA"));
    let second = m.process_event(DiscordCommEvent::Login("secretB".to_string()));
    assert_eq!(second.len(), 3);
    assert!(matches!(second[0], Action::AbortTask(0)));
    assert!(matches!(second[1], Action::ShutdownShards(0)));
    assert!(matches!(&second[2], Action::StartClient(1, t) if t == "secretB"));
    let send = m.process_event(DiscordCommEvent::MessageSend(7, "hi".to_string()));
    assert!(matches!(&send[0], Action::SayInChannel(1, 7, t) if t == "hi"));
    // the aborted first session finishing reports nothing and clears nothing
    assert!(m.on_client_finished(0, ClientOutcome::Failed("gone".to_string())).is_empty());
    assert!(m.is_logged_in());
}

#[test]
fn send_while_disconnected_is_one_error() {
    let mut m = DiscordManager::new();
    let acts = m.process_event(DiscordCommEvent::MessageSend(1, "hello".to_string()));
    assert_eq!(acts.len(), 1);
    assert_eq!(error_text(&acts[0]).unwrap(), "Not logged in");
    let acts = m.process_event(DiscordCommEvent::GetGuilds);
    assert_eq!(error_text(&acts[0]).unwrap(), "Not logged in");
    let acts = m.process_event(DiscordCommEvent::GetAvailableTextChannels(3));
    assert_eq!(error_text(&acts[0]).unwrap(), "Not logged in");
}

#[test]
fn logout_tears_down() {
    let mut m = DiscordManager::new();
    assert!(m.process_event(DiscordCommEvent::Logout).is_empty());
    m.process_event(DiscordCommEvent::Login("t".to_string()));
    let acts = m.process_event(DiscordCommEvent::Logout);
    assert!(matches!(acts[0], Action::AbortTask(0)));
    assert!(matches!(acts[1], Action::ShutdownShards(0)));
    assert!(!m.is_logged_in());
    assert!(m.process_event(DiscordCommEvent::Ready).is_empty());
}

#[test]
fn client_failures_are_reported() {
    let mut m = DiscordManager::new();
    m.process_event(DiscordCommEvent::Login("t".to_string()));
    let acts = m.on_client_finished(0, ClientOutcome::InvalidAuthentication);
    assert_eq!(error_text(&acts[0]).unwrap(), "Invalid token");
    assert!(!m.is_logged_in());
    m.process_event(DiscordCommEvent::Login("t".to_string()));
    let acts = m.on_client_finished(1, ClientOutcome::Failed("Gateway: closed".to_string()));
    assert_eq!(error_text(&acts[0]).unwrap(), "Gateway: closed");
    m.process_event(DiscordCommEvent::Login("t".to_string()));
    assert!(m.on_client_finished(2, ClientOutcome::Stopped).is_empty());
    assert!(!m.is_logged_in());
}

#[test]
fn request_failures_are_prefixed() {
    let m = DiscordManager::new();
    let a = m.on_message_sent(Err("timeout".to_string()));
    assert_eq!(error_text(&a[0]).unwrap(), "Unable to send message: timeout");
    assert!(m.on_message_sent(Ok(())).is_empty());
    let a = m.on_guilds_listed(Err("x".to_string()));
    assert_eq!(error_text(&a[0]).unwrap(), "Unable to get servers: x");
    let a = m.on_guilds_listed(Ok(vec![GuildSummary { id: 1, name: "g".to_string() }]));
    assert!(matches!(&a[0], Action::SendToGui(DiscordCommEvent::GuildsListed(v)) if v.len() == 1));
    let a = m.on_channels_listed(ChannelListing::GuildUnavailable("e".to_string()));
    assert_eq!(error_text(&a[0]).unwrap(), "Unable to get server: e");
    let a = m.on_channels_listed(ChannelListing::ChannelsUnavailable("f".to_string()));
    assert_eq!(error_text(&a[0]).unwrap(), "Unable to get channels: f");
}

#[test]
fn channel_listing_keeps_text_channels() {
    let m = DiscordManager::new();
    let chans = vec![
        ChannelSummary { id: 1, name: "general".to_string(), is_text: true },
        ChannelSummary { id: 2, name: "voice".to_string(), is_text: false },
        ChannelSummary { id: 3, name: "memes".to_string(), is_text: true },
    ];
    let a = m.on_channels_listed(ChannelListing::Channels(chans));
    match &a[0] {
        Action::SendToGui(DiscordCommEvent::AvailableTextChannelsListed(v)) => {
            let ids: Vec<u64> = v.iter().map(|c| c.id).collect();
            assert_eq!(ids, vec![1, 3]);
        }
        _ => panic!("expected a channel list"),
    }
}

#[test]
fn event_directions() {
    assert!(DiscordCommEvent::Logout.outbound());
    assert!(DiscordCommEvent::GetAvailableTextChannels(1).outbound());
    assert!(!DiscordCommEvent::Ready.outbound());
    assert!(!DiscordCommEvent::Error("e".to_string()).outbound());
}

#[test]
fn auto_login_skips_missing_file() {
    let mut app = App::new();
    let before = app.messages().len();
    let effects = app.auto_login(&get_key("host"), StoredToken::Missing);
    assert!(effects.is_empty());
    assert_eq!(app.messages().len(), before);
}

#[test]
fn auto_login_uses_saved_token() {
    let key = get_key("host");
    let bytes = config::save_token(&key, "saved".to_string()).ok().unwrap();
    let mut app = App::new();
    let effects = app.auto_login(&key, StoredToken::Bytes(bytes));
    assert!(matches!(&effects[0], Effect::Transmit(DiscordCommEvent::Login(t)) if t == "saved"));
    assert!(matches!(last_message(&app), GuiMessage::Generic(m) if m == "Logging in..."));
}

#[test]
fn auto_login_reports_unreadable_token() {
    let mut app = App::new();
    let effects = app.auto_login(&get_key("host"), StoredToken::Bytes(vec![9; 40]));
    assert!(effects.is_empty());
    assert!(matches!(last_message(&app),
        GuiMessage::Error(m) if m.starts_with("Unable to get token for automatic login: ")));
}

#[test]
fn login_env_without_variable() {
    let mut app = App::new();
    let effects = app.cmd_login(CommandContext { args: vec!["env".to_string()] });
    assert!(matches!(effects[0], Effect::ReadEnvToken));
    let effects = app.login_from_env(None);
    assert!(effects.is_empty());
    assert!(matches!(last_message(&app), GuiMessage::Error(m) if m == "DISCORD_TOKEN env variable missing"));
    // the env token is never kept for saving
    let effects = app.on_discord_event(DiscordCommEvent::Ready);
    assert!(effects.is_empty());
}

#[test]
fn login_env_with_variable() {
    let mut app = App::new();
    let effects = app.login_from_env(Some("envtok".to_string()));
    assert!(matches!(&effects[0], Effect::Transmit(DiscordCommEvent::Login(t)) if t == "envtok"));
    let n = app.messages().len();
    assert!(matches!(&app.messages()[n - 2], GuiMessage::Generic(m)
        if m == "Using token from env variables. It won't be saved."));
}

#[test]
fn login_without_token_is_error() {
    let mut app = App::new();
    let effects = app.cmd_login(CommandContext { args: vec![] });
    assert!(effects.is_empty());
    assert!(matches!(last_message(&app), GuiMessage::Error(m) if m == "Token not specified"));
}

#[test]
fn typed_login_saves_after_ready() {
    let mut app = App::new();
    app.set_text_to_send("/login   mytoken  ".to_string());
    let effects = app.submit_message();
    assert!(matches!(&effects[0], Effect::Transmit(DiscordCommEvent::Login(t)) if t == "mytoken"));
    assert_eq!(app.text_to_send(), "");
    let effects = app.on_discord_event(DiscordCommEvent::Ready);
    assert!(matches!(&effects[0], Effect::SaveToken(t) if t == "mytoken"));
    app.on_token_saved(Ok(()));
    assert!(matches!(last_message(&app), GuiMessage::Generic(m) if m == "Your token was encrypted and saved"));
    app.on_token_saved(Err("disk full".to_string()));
    assert!(matches!(last_message(&app), GuiMessage::Error(m) if m == "Unable to save your token: disk full"));
}

#[test]
fn submit_sends_plain_text() {
    let mut app = App::new();
    app.set_text_to_send("hello world".to_string());
    let effects = app.submit_message();
    assert!(matches!(&effects[0],
        Effect::Transmit(DiscordCommEvent::MessageSend(1459160075649286318, t)) if t == "hello world"));
    assert_eq!(app.text_to_send(), "");
}

#[test]
fn submit_blocks_token_shaped_text() {
    let mut app = App::new();
    let line = format!("{}.{}.{}", "A".repeat(24), "abcdef", "Z".repeat(27));
    app.set_text_to_send(line.clone());
    let effects = app.submit_message();
    assert!(effects.is_empty());
    assert_eq!(*app.text_to_send(), line);
    assert!(matches!(last_message(&app), GuiMessage::Error(m)
        if m == "Your message was not sent, because it possibly contained Discord token."));
}

#[test]
fn submit_ignores_blank_line() {
    let mut app = App::new();
    let n = app.messages().len();
    app.set_text_to_send("   \t ".to_string());
    assert!(app.submit_message().is_empty());
    assert_eq!(app.messages().len(), n);
    assert_eq!(app.text_to_send(), "   \t ");
}

#[test]
fn unknown_command_is_reported() {
    let mut app = App::new();
    assert!(app.process_command("dance now").is_empty());
    assert!(matches!(last_message(&app), GuiMessage::Error(m) if m == "Unknown command 'dance'"));
    let n = app.messages().len();
    assert!(app.process_command("   ").is_empty());
    assert_eq!(app.messages().len(), n);
}

#[test]
fn help_lists_commands() {
    let mut app = App::new();
    let n = app.messages().len();
    app.process_command("help");
    let msgs = app.messages();
    assert_eq!(msgs.len(), n + 6);
    assert!(matches!(&msgs[n], GuiMessage::Generic(m) if m == "Available commands:"));
    assert!(matches!(&msgs[n + 1], GuiMessage::Generic(m) if m == " help: Shows a list of commands"));
    assert!(matches!(&msgs[n + 5], GuiMessage::Generic(m) if m == " exit: Closes the program"));
}

#[test]
fn clear_and_exit_and_logout() {
    let mut app = App::new();
    app.process_command("clear");
    assert!(app.messages().is_empty());
    assert!(matches!(app.process_command("exit")[0], Effect::Exit));
    assert!(matches!(app.process_command("logout")[0], Effect::ForgetToken));
    let effects = app.on_token_forgotten(Err("busy".to_string()));
    assert!(matches!(effects[0], Effect::Transmit(DiscordCommEvent::Logout)));
    let msgs = app.messages();
    assert!(matches!(&msgs[0], GuiMessage::Error(m) if m == "Unable to forget your token: busy"));
    assert!(matches!(&msgs[1], GuiMessage::Generic(m) if m == "Logged out"));
}

#[test]
fn received_message_shows_author() {
    let mut app = App::new();
    app.on_discord_event(DiscordCommEvent::MessageReceived(ReceivedMessage {
        author: " Bob [dove] ".to_string(),
        content: "hi".to_string(),
        channel_id: 5,
    }));
    assert!(matches!(last_message(&app), GuiMessage::User(a, t) if a == "Bob" && t == "hi"));
    app.on_discord_event(DiscordCommEvent::Error("boom".to_string()));
    assert!(matches!(last_message(&app), GuiMessage::Error(m) if m == "boom"));
}

#[test]
fn command_builders() {
    let mut c = ChatCommand::one_alias("x".to_string());
    let d = c.with_description("does x".to_string());
    assert_eq!(d.description, "does x");
    assert_eq!(d.aliases, vec!["x".to_string()]);
    let e = c.with_handler(CommandKind::Clear);
    let mut app = App::new();
    e.execute(&mut app, CommandContext { args: vec![] });
    assert!(app.messages().is_empty());
}

#[test]
fn key_is_not_the_bare_digest() {
    // SHA-256 of the empty text
    let digest: [u8; 32] = [
        0xe3, 0xb0, 0xc4, 0x42, 0x98, 0xfc, 0x1c, 0x14, 0x9a, 0xfb, 0xf4, 0xc8, 0x99, 0x6f, 0xb9,
        0x24, 0x27, 0xae, 0x41, 0xe4, 0x64, 0x9b, 0x93, 0x4c, 0xa4, 0x95, 0x99, 0x1b, 0x78, 0x52,
        0xb8, 0x55,
    ];
    let key = get_key("");
    assert_ne!(key, digest);
    assert_eq!(key, get_key(""));
}
