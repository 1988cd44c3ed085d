use pi_radio::lcd::{probe_step, ProbeStep};
use pi_radio::display::{clock_text, lcd_lines, lcd_lines_checked};
use pi_radio::lcd::{candidate_addresses, Lcd1602, LcdOp};

fn names() -> Vec<String> {
    vec!["Radio Uno".to_string(), "Una emisora con nombre largo".to_string(), "Clásica Madrid FM".to_string()]
}

#[test]
fn clock_text_from_epoch_seconds() {
    assert_eq!(clock_text(0), "00:00:00");
    assert_eq!(clock_text(3661), "01:01:01");
    assert_eq!(clock_text(86399), "23:59:59");
    assert_eq!(clock_text(86400 + 45296), "12:34:56");
}

#[test]
fn first_line_numbers_and_names() {
    let (l1, _) = lcd_lines(0, &names(), false, false, 0, "12:00:00");
    assert_eq!(l1, " 1-Radio Uno");
    let (l1, _) = lcd_lines(1, &names(), false, false, 0, "12:00:00");
    assert_eq!(l1, " 2-Una emisora c...");
    let (l1, _) = lcd_lines(11, &names(), false, false, 0, "12:00:00");
    assert_eq!(l1, "12-Desconocida");
}

#[test]
fn second_line_flags_timer_clock() {
    let (_, l2) = lcd_lines(0, &names(), true, true, 45, "12:34:56");
    assert_eq!(l2, "N 45m   12:34:56");
    let (_, l2) = lcd_lines(0, &names(), false, true, 5, "12:34:56");
    assert_eq!(l2, "  05m   12:34:56");
    let (_, l2) = lcd_lines(0, &names(), false, false, 5, "12:34:56");
    assert_eq!(l2, "        12:34:56");
    let (_, l2) = lcd_lines(0, &names(), true, true, 100, "12:34:56");
    assert_eq!(l2, "N 100m   12:34:5");
}

#[test]
fn cut_inside_a_character_is_refused() {
    // A long name is cut at byte 13; the lines exist exactly when that
    // byte offset is a character boundary.
    let name = &names()[2];
    let expected = name.is_char_boundary(13);
    assert_eq!(lcd_lines_checked(2, &names(), false, false, 0, "00:00:00").is_some(), expected);
    let weird = vec!["abcdefghijklé€€€€".to_string()];
    assert!(!weird[0].is_char_boundary(13));
    assert_eq!(lcd_lines_checked(0, &weird, false, false, 0, "00:00:00"), None);
    assert_eq!(lcd_lines_checked(usize::MAX, &weird, false, false, 0, "00:00:00"), None);
    let ok = lcd_lines_checked(0, &names(), true, false, 0, "10:00:00").unwrap();
    assert_eq!(ok, (" 1-Radio Uno".to_string(), "N       10:00:00".to_string()));
}

#[test]
fn nibble_bytes() {
    let lcd = Lcd1602::new(0x27);
    assert_eq!(lcd.write_4bits(0x30), vec![LcdOp::Write(0x3c), LcdOp::Pause(1), LcdOp::Write(0x38), LcdOp::Pause(50)]);
    let mut dark = lcd;
    dark.set_backlight(false);
    assert_eq!(dark.write_4bits(0x30), vec![LcdOp::Write(0x34), LcdOp::Pause(1), LcdOp::Write(0x30), LcdOp::Pause(50)]);
}

#[test]
fn character_is_sent_in_two_nibbles() {
    let lcd = Lcd1602::new(0x27);
    let writes: Vec<u8> = lcd.write_char('A').into_iter().filter_map(|op| match op {
        LcdOp::Write(b) => Some(b),
        LcdOp::Pause(_) => None,
    }).collect();
    // 'A' = 0x41: high nibble 0x40, low nibble 0x10, RS and backlight set.
    assert_eq!(writes, vec![0x4d, 0x49, 0x1d, 0x19]);
    assert_eq!(lcd.write_str("AB").len(), 16);
    // 'é' is sent truncated to eight bits (0xe9).
    let writes: Vec<u8> = lcd.write_char('é').into_iter().filter_map(|op| match op {
        LcdOp::Write(b) => Some(b),
        LcdOp::Pause(_) => None,
    }).collect();
    assert_eq!(writes, vec![0xed, 0xe9, 0x9d, 0x99]);
}

#[test]
fn cursor_and_commands() {
    let lcd = Lcd1602::new(0x27);
    assert_eq!(lcd.set_cursor(0, 1), lcd.command(0xc0));
    assert_eq!(lcd.set_cursor(2, 9), lcd.command(0x80 | 0x56));
    let mut clear = lcd.command(0x01);
    clear.push(LcdOp::Pause(2000));
    assert_eq!(lcd.clear(), clear);
}

#[test]
fn init_and_show_sequences() {
    let lcd = Lcd1602::new(0x3f);
    let ops = lcd.init();
    assert_eq!(ops[0], LcdOp::Pause(50000));
    assert_eq!(ops[1], LcdOp::Write(0x3c));
    assert_eq!(*ops.last().unwrap(), LcdOp::Pause(100000));
    assert_eq!(ops.len(), 1 + 4 + 1 + 4 + 1 + 4 + 1 + 4 + 8 + 8 + 9 + 8 + 1);
    let show = lcd.show_lines("ab", "c");
    assert_eq!(show.len(), 8 + 16 + 8 + 8);
}

#[test]
fn shutdown_turns_backlight_off() {
    let mut lcd = Lcd1602::new(0x27);
    let groups = lcd.shutdown();
    assert!(!lcd.backlight);
    assert_eq!(groups.len(), 4);
    assert_eq!(groups[0], Lcd1602::new(0x27).clear());
    assert_eq!(groups[2][0], LcdOp::Write(0x04));
}

#[test]
fn addresses_in_probe_order() {
    assert_eq!(candidate_addresses(), vec![0x27, 0x3f, 0x20, 0x38]);
}

fn run_probe(answers: [bool; 4]) -> (Option<u16>, Vec<u16>) {
    let mut tried = 0;
    let mut last = false;
    let mut probed = vec![];
    loop {
        match probe_step(tried, last) {
            ProbeStep::Try(a) => {
                probed.push(a);
                last = answers[tried];
                tried += 1;
            }
            ProbeStep::Found(a) => return (Some(a), probed),
            ProbeStep::NotFound => return (None, probed),
        }
    }
}

#[test]
fn probe_stops_at_first_answer() {
    assert_eq!(run_probe([true, true, true, true]), (Some(0x27), vec![0x27]));
    assert_eq!(run_probe([false, true, true, false]), (Some(0x3f), vec![0x27, 0x3f]));
    assert_eq!(run_probe([false, false, false, true]), (Some(0x38), vec![0x27, 0x3f, 0x20, 0x38]));
    assert_eq!(run_probe([false; 4]), (None, vec![0x27, 0x3f, 0x20, 0x38]));
}
