use payments_engine::account::Account;
use payments_engine::config::Config;
use payments_engine::render::{format_amount, format_client, format_locked, render_account};

#[test]
fn amounts_print_with_four_decimals() {
    assert_eq!(format_amount(0), "0.0000");
    assert_eq!(format_amount(1_000_000), "100.0000");
    assert_eq!(format_amount(123_456), "12.3456");
    assert_eq!(format_amount(1), "0.0001");
    assert_eq!(format_amount(-5_000), "-0.5000");
    assert_eq!(format_amount(-10_000_001), "-1000.0001");
}

#[test]
fn clients_print_as_plain_decimals() {
    assert_eq!(format_client(0), "0");
    assert_eq!(format_client(7), "7");
    assert_eq!(format_client(65_535), "65535");
}

#[test]
fn locked_prints_as_true_or_false() {
    assert_eq!(format_locked(true), "true");
    assert_eq!(format_locked(false), "false");
}

#[test]
fn a_row_has_the_five_fields_in_output_order() {
    let account = Account { available: 15_000, held: 5_000, total: 20_000, locked: true };
    let row = render_account(42, &account);
    assert_eq!(row, vec!["42", "1.5000", "0.5000", "2.0000", "true"]);
}

#[test]
fn config_needs_a_file_path_argument() {
    let args = vec!["engine".to_string()];
    assert_eq!(Config::build(&args).err(), Some("not enough arguments"));

    let args = vec!["engine".to_string(), "events.csv".to_string()];
    let config = Config::build(&args).unwrap();
    assert_eq!(config.file_path, "events.csv");
}
