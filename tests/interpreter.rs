use befunge::befunge::{apply_arith, operand_count, Befunge, BefungeError, Effect};
use befunge::console::{decimal_width, Console};
use befunge::memory::MEM_WIDTH;
use befunge::program_counter::Direction;
use befunge::stack::POP_COUNTS;

/// Runs a session to its end, answering reads from `inputs` in order and
/// random draws with `draw`, and returns what it wrote and how it ended.
fn run_script(b: &mut Befunge, inputs: &[i32], draw: u32) -> (String, Result<(), BefungeError>) {
    let mut out = String::new();
    let mut next_input = 0;
    for _ in 0..10_000 {
        match b.run_until_effect(100_000) {
            Ok(Effect::Continue) => {}
            Ok(Effect::Halt) => return (out, Ok(())),
            Ok(Effect::WriteInt(v)) => out.push_str(&format!("{} ", v)),
            Ok(Effect::WriteChar(c)) => out.push(c as char),
            Ok(Effect::ReadInt) => {
                b.supply_int(inputs[next_input]);
                next_input += 1;
            }
            Ok(Effect::ReadChar) => {
                b.supply_char(char::from_u32(inputs[next_input] as u32).unwrap());
                next_input += 1;
            }
            Ok(Effect::RandomDirection) => b.choose_direction(draw),
            Err(e) => return (out, Err(e)),
        }
    }
    panic!("the program did not halt");
}

fn run_text(text: &str) -> (String, Result<(), BefungeError>) {
    let mut b = Befunge::from_source(text);
    run_script(&mut b, &[], 0)
}

#[test]
fn digit_output_halt() {
    assert_eq!(run_text("9.@"), ("9 ".to_string(), Ok(())));
}

#[test]
fn sum_of_five_and_four() {
    assert_eq!(run_text("54+.@"), ("9 ".to_string(), Ok(())));
}

#[test]
fn division_by_zero_faults() {
    let mut b = Befunge::from_source("30/.@");
    assert_eq!(b.run_until_effect(100), Err(BefungeError::DivisionByZero));
    assert_eq!(b.pc().pos(), (0, 2));
    assert_eq!(run_text("30%.@"), (String::new(), Err(BefungeError::DivisionByZero)));
}

#[test]
fn store_then_fetch_writes_a() {
    assert_eq!(run_text("88*1+51p51g,@"), ("A".to_string(), Ok(())));
}

#[test]
fn hello_world_program() {
    assert_eq!(
        run_text("v\n>0\"!dlroW olleH\">:#,_@"),
        ("Hello World!".to_string(), Ok(()))
    );
}

#[test]
fn hello_world_sample_program() {
    let mut b = Befunge::hello_world_sample();
    assert_eq!(run_script(&mut b, &[], 0), ("Hello, World!".to_string(), Ok(())));
}

#[test]
fn factorial_program() {
    let mut b = Befunge::factorial_sample();
    assert_eq!(run_script(&mut b, &[], 0), ("120 ".to_string(), Ok(())));
}

#[test]
fn string_literal_pushes_code_points_without_quotes() {
    let mut b = Befunge::from_source("\"ab\"@");
    assert_eq!(b.run_until_effect(100), Ok(Effect::Halt));
    assert_eq!(b.stack().len(), 2);
    assert_eq!(b.stack().peek(1), 'a' as i32);
    assert_eq!(b.stack().peek(0), 'b' as i32);
    assert!(!b.in_string_mode());
}

#[test]
fn string_mode_is_on_between_the_quotes() {
    let mut b = Befunge::from_source("\"x@\"");
    assert_eq!(b.tick(), Ok(Effect::Continue));
    assert!(b.in_string_mode());
    assert_eq!(b.tick(), Ok(Effect::Continue));
    assert_eq!(b.tick(), Ok(Effect::Continue));
    assert_eq!(b.stack().len(), 2);
    assert_eq!(b.stack().top(), '@' as i32);
    assert_eq!(b.tick(), Ok(Effect::Continue));
    assert!(!b.in_string_mode());
}

#[test]
fn popping_an_empty_stack_stops_the_run() {
    assert_eq!(run_text("."), (String::new(), Err(BefungeError::StackUnderflow(b'.'))));
    assert_eq!(run_text("1+"), (String::new(), Err(BefungeError::StackUnderflow(b'+'))));
    assert_eq!(run_text("12p"), (String::new(), Err(BefungeError::StackUnderflow(b'p'))));
    assert_eq!(run_text(":"), (String::new(), Err(BefungeError::StackUnderflow(b':'))));
    let mut b = Befunge::from_source("1\\");
    assert_eq!(b.tick(), Ok(Effect::Continue));
    assert_eq!(b.tick(), Err(BefungeError::StackUnderflow(b'\\')));
    assert_eq!(b.stack().len(), 1);
}

#[test]
fn unknown_instruction_stops_the_run() {
    assert_eq!(run_text("1x"), (String::new(), Err(BefungeError::UnknownInstruction(b'x'))));
}

#[test]
fn out_of_bounds_get_and_put() {
    assert_eq!(run_text("099*g"), (String::new(), Err(BefungeError::OutOfBounds)));
    assert_eq!(run_text("09-0g"), (String::new(), Err(BefungeError::OutOfBounds)));
    assert_eq!(run_text("1099*p"), (String::new(), Err(BefungeError::OutOfBounds)));
    assert_eq!(run_text("00g,@"), ("0".to_string(), Ok(())));
}

#[test]
fn put_keeps_the_low_byte() {
    let mut b = Befunge::from_source("88*4*1+55p@");
    assert_eq!(b.run_until_effect(100), Ok(Effect::Halt));
    assert_eq!(b.memory().get(5, 5), 1);
}

#[test]
fn arithmetic_and_comparison() {
    assert_eq!(run_text("73-.@"), ("4 ".to_string(), Ok(())));
    assert_eq!(run_text("37-.@"), ("-4 ".to_string(), Ok(())));
    assert_eq!(run_text("67*.@"), ("42 ".to_string(), Ok(())));
    assert_eq!(run_text("72/.@"), ("3 ".to_string(), Ok(())));
    assert_eq!(run_text("07-2/.@"), ("-3 ".to_string(), Ok(())));
    assert_eq!(run_text("72%.@"), ("1 ".to_string(), Ok(())));
    assert_eq!(run_text("07-2%.@"), ("-1 ".to_string(), Ok(())));
    assert_eq!(run_text("72`.27`.@"), ("1 0 ".to_string(), Ok(())));
    assert_eq!(run_text("0!.5!.@"), ("1 0 ".to_string(), Ok(())));
}

#[test]
fn arithmetic_wraps_on_overflow() {
    assert_eq!(apply_arith(b'+', i32::MAX, 1), Ok(i32::MIN));
    assert_eq!(apply_arith(b'-', i32::MIN, 1), Ok(i32::MAX));
    assert_eq!(apply_arith(b'*', i32::MAX, 2), Ok(-2));
    assert_eq!(apply_arith(b'/', i32::MIN, -1), Ok(i32::MIN));
    assert_eq!(apply_arith(b'%', i32::MIN, -1), Ok(0));
    assert_eq!(apply_arith(b'/', 5, 0), Err(BefungeError::DivisionByZero));
    assert_eq!(apply_arith(b'`', -1, -2), Ok(1));
}

#[test]
fn operand_counts() {
    assert_eq!(operand_count(b'p'), 3);
    assert_eq!(operand_count(b'g'), 2);
    assert_eq!(operand_count(b'\\'), 2);
    assert_eq!(operand_count(b'_'), 1);
    assert_eq!(operand_count(b'@'), 0);
}

#[test]
fn stack_instructions() {
    assert_eq!(run_text("12\\..@"), ("1 2 ".to_string(), Ok(())));
    assert_eq!(run_text("3:..@"), ("3 3 ".to_string(), Ok(())));
    assert_eq!(run_text("12$.@"), ("1 ".to_string(), Ok(())));
}

#[test]
fn conditionals_and_bridge() {
    assert_eq!(run_text("0_1.@\n    2\n"), ("1 ".to_string(), Ok(())));
    assert_eq!(run_text("1#2.@"), ("1 ".to_string(), Ok(())));
    assert_eq!(run_text("v\n0\n|\n@\n"), (String::new(), Ok(())));
    assert_eq!(run_text("1v\n >.@\n"), ("1 ".to_string(), Ok(())));
}

#[test]
fn a_row_wraps_to_its_start() {
    let mut text = String::from(">");
    while text.len() < MEM_WIDTH - 2 {
        text.push(' ');
    }
    text.push_str("1@");
    let mut b = Befunge::from_source("<@.1");
    assert_eq!(run_script(&mut b, &[], 0), ("1 ".to_string(), Ok(())));
    let mut b = Befunge::from_source(&text);
    assert_eq!(b.run_until_effect(1000), Ok(Effect::Halt));
    assert_eq!(b.stack().top(), 1);
}

#[test]
fn reads_and_random_directions() {
    let mut b = Befunge::from_source("&~+.@");
    assert_eq!(run_script(&mut b, &[40, 2], 0), ("42 ".to_string(), Ok(())));
    let mut b = Befunge::from_source("?1.@");
    assert_eq!(b.run_until_effect(10), Ok(Effect::RandomDirection));
    b.choose_direction(6);
    assert_eq!(b.pc().dir(), Direction::Right);
    b.choose_direction(3);
    assert_eq!(b.pc().dir(), Direction::Left);
    b.choose_direction(4);
    assert_eq!(b.pc().dir(), Direction::Up);
    b.choose_direction(1);
    assert_eq!(b.pc().dir(), Direction::Down);
    let mut b = Befunge::from_source("~.@");
    assert_eq!(b.tick(), Ok(Effect::ReadChar));
    b.supply_char('\u{1F600}');
    assert_eq!(b.stack().top(), 0x1F600);
}

#[test]
fn run_stops_when_ticks_run_out() {
    let mut b = Befunge::from_source(">");
    assert_eq!(b.run_until_effect(5), Ok(Effect::Continue));
    assert_eq!(b.pc().pos(), (0, 4));
    assert_eq!(b.run_until_effect(0), Ok(Effect::Continue));
    assert_eq!(b.pc().pos(), (0, 4));
}

#[test]
fn caret_follows_output_and_input() {
    let mut c = Console::new();
    assert_eq!(c.cursor(), (30, 1));
    c.int_written(-120);
    assert_eq!(c.cursor(), (30, 6));
    c.char_written();
    assert_eq!(c.cursor(), (30, 7));
    c.char_read('a');
    assert_eq!(c.cursor(), (30, 7));
    c.char_read('\n');
    assert_eq!(c.cursor(), (31, 1));
    c.line_read();
    assert_eq!(c.cursor(), (32, 1));
}

#[test]
fn decimal_widths() {
    assert_eq!(decimal_width(0), 1);
    assert_eq!(decimal_width(9), 1);
    assert_eq!(decimal_width(10), 2);
    assert_eq!(decimal_width(-5), 2);
    assert_eq!(decimal_width(i32::MAX), 10);
    assert_eq!(decimal_width(i32::MIN), 11);
}

#[test]
fn underflow_message_gives_the_operand_counts() {
    let m = BefungeError::StackUnderflow(b'+').message();
    assert!(m.starts_with("stack underflow: the instruction pops 2 operand(s)"));
    assert!(m.ends_with(POP_COUNTS));
    assert!(BefungeError::StackUnderflow(b'p').message().contains("pops 3 operand(s)"));
    assert!(BefungeError::StackUnderflow(b'$').message().contains("pops 1 operand(s)"));
    let mut listed = 0;
    for entry in POP_COUNTS.split(' ') {
        let bytes = entry.as_bytes();
        assert_eq!(bytes.len(), 4);
        assert_eq!(operand_count(bytes[0]), (bytes[2] - b'0') as usize);
        listed += 1;
    }
    assert_eq!(listed, 16);
    let mut popping = 0;
    for c in 0..=255u8 {
        if operand_count(c) > 0 {
            popping += 1;
            assert!(POP_COUNTS.contains(&format!("{}({})", c as char, operand_count(c))));
        }
    }
    assert_eq!(popping, 16);
}

#[test]
fn error_messages_name_the_fault() {
    assert!(BefungeError::StackUnderflow(b'+').message().contains("operand"));
    assert!(!BefungeError::DivisionByZero.message().is_empty());
}
