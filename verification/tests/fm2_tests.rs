use covnes::fm2_movie_file::playback::{reversed, MoviePlayer, Unsupported};
use covnes::fm2_movie_file::text::{find_byte, parse_number, same_bytes, split_fields, split_lines};
use covnes::fm2_movie_file::{
    input_device, optional, optional_bool_or_false, optional_int, parse_gamepad_input,
    parse_input_for_input_device, parse_no_controller_input_input, parse_zapper_input, required,
    required_int, Command, ControllerConfiguration, Error, FM2File, Header, InputDevice,
    COMMAND_HARD_RESET, COMMAND_SOFT_RESET,
};

const HEADER: &str = "version 3\n\
emuVersion 22020\n\
rerecordCount 12\n\
palFlag 0\n\
romFilename Some Game (U)\n\
romChecksum base64:abc\n\
guid 452DE2C3-EF43-2FA9-77AC-0677FC51543B\n\
fourscore 0\n\
port0 1\n\
port1 0\n\
port2 0\n\
comment author somebody\n";

fn movie(body: &str) -> Result<FM2File, Error> {
    FM2File::parse(format!("{}{}", HEADER, body).as_bytes())
}

fn with_header(header: &str) -> Result<FM2File, Error> {
    FM2File::parse(format!("{}|0|........||x|\n", header).as_bytes())
}

#[test]
fn parses_a_movie() {
    let m = movie("|0|........||x|\n|1|R......A||x|\n|2|.L.U.S.B||x|\r\n|0|abcdefgh||x|").unwrap();
    assert_eq!(m.version, 3);
    assert_eq!(m.emu_version, 22020);
    assert_eq!(m.rerecord_count, Some(12));
    assert!(!m.pal_flag);
    assert!(!m.new_ppu);
    assert!(!m.fds);
    assert!(!m.binary);
    assert_eq!(m.length, None);
    assert_eq!(m.rom_filename, b"Some Game (U)".to_vec());
    assert_eq!(m.rom_checksum, b"base64:abc".to_vec());
    assert_eq!(m.guid, b"452DE2C3-EF43-2FA9-77AC-0677FC51543B".to_vec());
    assert_eq!(m.comment, Some(b"author somebody".to_vec()));
    assert_eq!(m.subtitle, None);
    assert_eq!(m.savestate, None);
    let commands: Vec<u8> = m.commands.iter().map(|c| c.bits()).collect();
    assert_eq!(commands, vec![0, 1, 2, 0]);
    assert!(m.commands[1].contains(COMMAND_SOFT_RESET));
    assert!(m.commands[2].contains(COMMAND_HARD_RESET));
    match m.controllers {
        ControllerConfiguration::Ports { port0: InputDevice::Gamepad(frames), port1: InputDevice::NotConnected } => {
            let bits: Vec<u8> = frames.iter().map(|f| f.bits()).collect();
            // The first character is the button at bit 7
            assert_eq!(bits, vec![0x00, 0x81, 0x55, 0xFF]);
        }
        other => panic!("{:?}", other),
    }
}

#[test]
fn length_cuts_the_input_short() {
    let m = with_header(&format!("{}length 1\n", HEADER)).unwrap();
    assert_eq!(m.length, Some(1));
    assert_eq!(m.commands.len(), 1);
    let body = "|0|........||x|\n|0|........||x|\n|0|........||x|\nthis is not read\n";
    let m = FM2File::parse(format!("{}length 2\n{}", HEADER, body).as_bytes()).unwrap();
    assert_eq!(m.commands.len(), 2);
    // A length that is not reached, or not positive, reads every line
    let body = "|0|........||x|\n|0|........||x|\n";
    let m = FM2File::parse(format!("{}length 5\n{}", HEADER, body).as_bytes()).unwrap();
    assert_eq!(m.commands.len(), 2);
    let m = FM2File::parse(format!("{}length 0\n{}", HEADER, body).as_bytes()).unwrap();
    assert_eq!(m.commands.len(), 2);
}

#[test]
fn fourscore_reads_four_gamepads() {
    let header = HEADER.replace("fourscore 0", "fourscore 1").replace("port0 1\nport1 0\n", "");
    let m = FM2File::parse(
        format!("{}|0|R.......|.L......|..D.....|...U....|x|\n", header).as_bytes(),
    )
    .unwrap();
    match m.controllers {
        ControllerConfiguration::Fourscore(frames) => {
            assert_eq!(frames.len(), 1);
            let bits: Vec<u8> = frames[0].iter().map(|f| f.bits()).collect();
            assert_eq!(bits, vec![0x80, 0x40, 0x20, 0x20]);
        }
        other => panic!("{:?}", other),
    }
    let short = format!("{}|0|R.......|.L......|..D....|...U....|x|\n", header);
    assert!(matches!(
        FM2File::parse(short.as_bytes()),
        Err(Error::BadGamepadInput { line_no: 11, section: "player3" })
    ));
}

#[test]
fn no_input() {
    assert!(matches!(FM2File::parse(b""), Err(Error::NoInput)));
    assert!(matches!(FM2File::parse(HEADER.as_bytes()), Err(Error::NoInput)));
}

#[test]
fn malformed_header_line() {
    assert!(matches!(
        FM2File::parse(b"version 3\nemuVersion\n|0|"),
        Err(Error::MalformedHeaderLine { line_no: 2 })
    ));
    assert!(matches!(FM2File::parse(b"\n"), Err(Error::MalformedHeaderLine { line_no: 1 })));
}

#[test]
fn duplicate_key() {
    match FM2File::parse(b"version 3\nguid a\nversion 4\n|0|") {
        Err(Error::DuplicateKey { key, line_no }) => {
            assert_eq!(key, b"version".to_vec());
            assert_eq!(line_no, 3);
        }
        other => panic!("{:?}", other),
    }
}

#[test]
fn required_keys() {
    for key in ["version", "emuVersion", "port0", "port1", "port2", "romFilename", "guid", "romChecksum"] {
        let header: String =
            HEADER.lines().filter(|l| !l.starts_with(&format!("{} ", key))).map(|l| format!("{}\n", l)).collect();
        match with_header(&header) {
            Err(Error::RequiredKeyNotFound { key: missing }) => assert_eq!(missing, key),
            other => panic!("{}: {:?}", key, other),
        }
    }
}

#[test]
fn not_an_integer() {
    match with_header(&HEADER.replace("version 3", "version three")) {
        Err(Error::NotAnInteger { key, value }) => {
            assert_eq!(key, "version");
            assert_eq!(value, b"three".to_vec());
        }
        other => panic!("{:?}", other),
    }
    assert!(matches!(
        with_header(&HEADER.replace("rerecordCount 12", "rerecordCount 99999999999")),
        Err(Error::NotAnInteger { key: "rerecordCount", .. })
    ));
    assert!(matches!(
        with_header(&HEADER.replace("palFlag 0", "palFlag yes")),
        Err(Error::NotAnInteger { key: "palFlag", .. })
    ));
}

#[test]
fn not_a_bool() {
    assert!(matches!(
        with_header(&HEADER.replace("palFlag 0", "palFlag 2")),
        Err(Error::NotABool { key: "palFlag", value: 2 })
    ));
    assert!(matches!(
        with_header(&HEADER.replace("fourscore 0", "fourscore -1")),
        Err(Error::NotABool { key: "fourscore", value: -1 })
    ));
    let m = with_header(&HEADER.replace("palFlag 0", "palFlag 1\nNewPPU 1\nfds 1")).unwrap();
    assert!(m.pal_flag && m.new_ppu && m.fds);
}

#[test]
fn bad_input_device() {
    assert!(matches!(
        with_header(&HEADER.replace("port0 1", "port0 3")),
        Err(Error::BadInputDevice { key: "port0" })
    ));
    assert!(matches!(
        with_header(&HEADER.replace("port1 0", "port1 -1")),
        Err(Error::BadInputDevice { key: "port1" })
    ));
}

#[test]
fn bad_expansion_port() {
    assert!(matches!(
        with_header(&HEADER.replace("port2 0", "port2 1")),
        Err(Error::BadPort2 { key: "port2" })
    ));
}

#[test]
fn binary_movies_are_refused() {
    assert!(matches!(with_header(&format!("{}binary 1\n", HEADER)), Err(Error::NoBinaryPlease)));
    assert!(with_header(&format!("{}binary 0\n", HEADER)).is_ok());
}

#[test]
fn bad_input_line() {
    // Too few and too many sections
    assert!(matches!(movie("|0|........||\n"), Err(Error::BadInputLine { line_no: 13 })));
    assert!(matches!(movie("|0|........||x|y|\n"), Err(Error::BadInputLine { line_no: 13 })));
    // No bar at the end
    assert!(matches!(movie("|0|........||x|y\n"), Err(Error::BadInputLine { line_no: 13 })));
    // An empty section for the expansion port
    assert!(matches!(movie("|0|........|||\n"), Err(Error::BadInputLine { line_no: 13 })));
    // The line number counts from the top of the file
    assert!(matches!(
        movie("|0|........||x|\n|0|........||x|\n|\n"),
        Err(Error::BadInputLine { line_no: 15 })
    ));
}

#[test]
fn bad_commands() {
    assert!(matches!(movie("|x|........||x|\n"), Err(Error::BadCommands { line_no: 13 })));
    assert!(matches!(movie("|-1|........||x|\n"), Err(Error::BadCommands { line_no: 13 })));
    assert!(matches!(movie("||........||x|\n"), Err(Error::BadCommands { line_no: 13 })));
    // Bits that stand for no command are dropped
    assert_eq!(movie("|255|........||x|\n").unwrap().commands[0].bits(), 0);
    assert_eq!(movie("|254|........||x|\n").unwrap().commands[0].bits(), 0x1E);
    assert_eq!(movie("|31|........||x|\n").unwrap().commands[0].bits(), 0x1F);
    assert_eq!(Command::from_bits_truncate(0xFF).bits(), 0x1F);
}

#[test]
fn bad_gamepad_input() {
    assert!(matches!(
        movie("|0|.......||x|\n"),
        Err(Error::BadGamepadInput { line_no: 13, section: "port0" })
    ));
    assert!(matches!(
        movie("|0|.........||x|\n"),
        Err(Error::BadGamepadInput { line_no: 13, section: "port0" })
    ));
}

#[test]
fn bad_input_for_an_empty_port() {
    assert!(matches!(
        movie("|0|........|........|x|\n"),
        Err(Error::BadNoInputInput { line_no: 13, section: "port1" })
    ));
}

#[test]
fn zapper_input_is_refused() {
    assert!(matches!(
        with_header(&HEADER.replace("port1 0", "port1 2")),
        Err(Error::BadZapperInput { line_no: 13, section: "port1" })
    ));
    assert!(matches!(
        parse_zapper_input(b"1 2 3 4 5", 7, "port0"),
        Err(Error::BadZapperInput { line_no: 7, section: "port0" })
    ));
}

#[test]
fn gamepad_characters() {
    assert_eq!(parse_gamepad_input(b"........", 1, "p").unwrap().bits(), 0x00);
    assert_eq!(parse_gamepad_input(b"        ", 1, "p").unwrap().bits(), 0x00);
    assert_eq!(parse_gamepad_input(b"RLDUTSBA", 1, "p").unwrap().bits(), 0xFF);
    assert_eq!(parse_gamepad_input(b".......A", 1, "p").unwrap().bits(), 0x01);
    assert_eq!(parse_gamepad_input(b"R.......", 1, "p").unwrap().bits(), 0x80);
    assert_eq!(parse_gamepad_input(b". x. .x.", 1, "p").unwrap().bits(), 0x22);
    assert!(parse_gamepad_input(b"", 1, "p").is_err());
    assert!(parse_no_controller_input_input(b"", 1, "p").is_ok());
    assert!(matches!(
        parse_no_controller_input_input(b" ", 4, "p"),
        Err(Error::BadNoInputInput { line_no: 4, section: "p" })
    ));
}

#[test]
fn input_goes_to_its_device() {
    let mut pad = InputDevice::Gamepad(Vec::new());
    parse_input_for_input_device(&mut pad, b"R......A", 1, "port0").unwrap();
    parse_input_for_input_device(&mut pad, b".......A", 2, "port0").unwrap();
    assert!(parse_input_for_input_device(&mut pad, b"", 3, "port0").is_err());
    match &pad {
        InputDevice::Gamepad(frames) => {
            assert_eq!(frames.iter().map(|f| f.bits()).collect::<Vec<u8>>(), vec![0x81, 0x01])
        }
        other => panic!("{:?}", other),
    }
    let mut none = InputDevice::NotConnected;
    assert!(parse_input_for_input_device(&mut none, b"", 1, "port1").is_ok());
    assert!(parse_input_for_input_device(&mut none, b"x", 1, "port1").is_err());
    let mut zapper = InputDevice::Zapper(Vec::new());
    assert!(parse_input_for_input_device(&mut zapper, b"", 1, "port1").is_err());
}

fn header(pairs: &[(&str, &str)]) -> Header {
    let mut h = Header::new();
    for (k, v) in pairs {
        h.insert(k.as_bytes().to_vec(), v.as_bytes().to_vec());
    }
    h
}

#[test]
fn header_lookups() {
    let mut h = header(&[("a", "1"), ("b", "two"), ("c", "-3"), ("d", "1"), ("e", "2")]);
    assert!(h.contains_key(b"a"));
    assert!(!h.contains_key(b"z"));
    assert_eq!(h.position(b"b"), Some(1));
    assert_eq!(optional(&mut h, "z"), None);
    assert_eq!(optional(&mut h, "b"), Some(b"two".to_vec()));
    // A key is taken out by its lookup
    assert_eq!(optional(&mut h, "b"), None);
    assert!(matches!(required(&mut h, "b"), Err(Error::RequiredKeyNotFound { key: "b" })));
    assert_eq!(required_int(&mut h, "c").unwrap(), -3);
    assert!(matches!(required_int(&mut h, "c"), Err(Error::RequiredKeyNotFound { key: "c" })));
    assert_eq!(optional_int(&mut h, "c").unwrap(), None);
    assert_eq!(optional_int(&mut h, "a").unwrap(), Some(1));
    assert!(optional_bool_or_false(&mut h, "d").unwrap());
    assert!(!optional_bool_or_false(&mut h, "d").unwrap());
    assert!(matches!(
        optional_bool_or_false(&mut h, "e"),
        Err(Error::NotABool { key: "e", value: 2 })
    ));
    assert_eq!(h.remove(b"e"), None);

    let mut h = header(&[("p", "0"), ("q", "1"), ("r", "2"), ("s", "3"), ("t", "x")]);
    assert!(matches!(input_device(&mut h, "p"), Ok(InputDevice::NotConnected)));
    assert!(matches!(input_device(&mut h, "q"), Ok(InputDevice::Gamepad(v)) if v.is_empty()));
    assert!(matches!(input_device(&mut h, "r"), Ok(InputDevice::Zapper(v)) if v.is_empty()));
    assert!(matches!(input_device(&mut h, "s"), Err(Error::BadInputDevice { key: "s" })));
    assert!(matches!(input_device(&mut h, "t"), Err(Error::NotAnInteger { key: "t", .. })));
    assert!(matches!(input_device(&mut h, "u"), Err(Error::RequiredKeyNotFound { key: "u" })));
}

#[test]
fn numbers() {
    assert_eq!(parse_number(b"0"), Some(0));
    assert_eq!(parse_number(b"007"), Some(7));
    assert_eq!(parse_number(b"+15"), Some(15));
    assert_eq!(parse_number(b"-15"), Some(-15));
    assert_eq!(parse_number(b"2147483647"), Some(i32::MAX));
    assert_eq!(parse_number(b"-2147483648"), Some(i32::MIN));
    assert_eq!(parse_number(b"2147483648"), None);
    assert_eq!(parse_number(b"-2147483649"), None);
    assert_eq!(parse_number(b"99999999999999999999999"), None);
    assert_eq!(parse_number(b""), None);
    assert_eq!(parse_number(b"-"), None);
    assert_eq!(parse_number(b"+"), None);
    assert_eq!(parse_number(b" 1"), None);
    assert_eq!(parse_number(b"1 "), None);
    assert_eq!(parse_number(b"1x"), None);
    assert_eq!(parse_number(b"--1"), None);
}

#[test]
fn lines_and_fields() {
    let lines = split_lines(b"one\ntwo\r\n\nfour\r");
    assert_eq!(lines, vec![b"one".to_vec(), b"two".to_vec(), b"".to_vec(), b"four\r".to_vec()]);
    assert_eq!(split_lines(b""), Vec::<Vec<u8>>::new());
    assert_eq!(split_lines(b"\n"), vec![b"".to_vec()]);
    assert_eq!(split_lines(b"\r\n"), vec![b"".to_vec()]);
    assert_eq!(split_lines(b"a\n"), vec![b"a".to_vec()]);
    let fields = split_fields(b"|a||b|", b'|');
    assert_eq!(fields, vec![b"".to_vec(), b"a".to_vec(), b"".to_vec(), b"b".to_vec(), b"".to_vec()]);
    assert_eq!(split_fields(b"", b'|'), vec![b"".to_vec()]);
    assert_eq!(split_fields(b"ab", b'|'), vec![b"ab".to_vec()]);
    assert_eq!(find_byte(b"hello", b'l', 0), 2);
    assert_eq!(find_byte(b"hello", b'l', 3), 3);
    assert_eq!(find_byte(b"hello", b'z', 0), 5);
    assert!(same_bytes(b"abc", b"abc"));
    assert!(!same_bytes(b"abc", b"abd"));
    assert!(!same_bytes(b"abc", b"ab"));
}

#[test]
fn playback_runs_the_frames_in_order() {
    let m = movie("|0|.......A||x|\n|1|......B.||x|\n|0|R.......||x|\n").unwrap();
    let mut player = MoviePlayer::new(m).unwrap();
    // The frames are kept with the next one last
    assert_eq!(player.buttons.iter().map(|b| b.bits()).collect::<Vec<u8>>(), vec![0x80, 0x02, 0x01]);
    let first = player.next_frame();
    assert_eq!((first.reset, first.buttons.bits()), (false, 0x01));
    let second = player.next_frame();
    assert_eq!((second.reset, second.buttons.bits()), (true, 0x02));
    let third = player.next_frame();
    assert_eq!((third.reset, third.buttons.bits()), (false, 0x80));
    // After the last frame nothing is held
    let after = player.next_frame();
    assert_eq!((after.reset, after.buttons.bits()), (false, 0x00));
    assert!(player.commands.is_empty() && player.buttons.is_empty());
}

#[test]
fn unsupported_movies() {
    let pal = with_header(&HEADER.replace("palFlag 0", "palFlag 1")).unwrap();
    assert_eq!(MoviePlayer::new(pal).err(), Some(Unsupported::PalOrFds));
    let fds = with_header(&format!("{}fds 1\n", HEADER)).unwrap();
    assert_eq!(MoviePlayer::new(fds).err(), Some(Unsupported::PalOrFds));
    let header = HEADER.replace("fourscore 0", "fourscore 1").replace("port0 1\nport1 0\n", "");
    let four = FM2File::parse(
        format!("{}|0|........|........|........|........|x|\n", header).as_bytes(),
    )
    .unwrap();
    assert_eq!(MoviePlayer::new(four).err(), Some(Unsupported::Fourscore));
    let none = FM2File::parse(
        format!("{}|0||........|x|\n", HEADER.replace("port0 1\nport1 0", "port0 0\nport1 1")).as_bytes(),
    )
    .unwrap();
    assert_eq!(MoviePlayer::new(none).err(), Some(Unsupported::NoController));
    let zapper = FM2File {
        version: 3,
        emu_version: 1,
        rerecord_count: None,
        pal_flag: false,
        new_ppu: false,
        fds: false,
        controllers: ControllerConfiguration::Ports {
            port0: InputDevice::Zapper(Vec::new()),
            port1: InputDevice::NotConnected,
        },
        port2: (),
        binary: false,
        length: None,
        rom_filename: Vec::new(),
        comment: None,
        subtitle: None,
        guid: Vec::new(),
        rom_checksum: Vec::new(),
        savestate: None,
        commands: Vec::new(),
    };
    assert_eq!(MoviePlayer::new(zapper).err(), Some(Unsupported::Zapper));
    assert_eq!(reversed(&vec![1, 2, 3]), vec![3, 2, 1]);
}
