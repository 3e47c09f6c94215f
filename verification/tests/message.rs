use trybox::{ErrorWith, Layout};

fn msg(size: usize, name: &str) -> String {
    trybox::render_message(Layout { size, align: 1 }, name)
}

#[test]
fn four_byte_failure_renders_plain() {
    let l = ErrorWith(0i32).layout();
    assert_eq!(
        trybox::render_message(l, "i32"),
        "memory allocation of 4 bytes (for type i32) failed"
    );
}

#[test]
fn one_byte() {
    assert_eq!(msg(1, "u8"), "memory allocation of 1 bytes (for type u8) failed");
}

#[test]
fn zero_bytes() {
    assert_eq!(msg(0, "()"), "memory allocation of 0 bytes (for type ()) failed");
}

#[test]
fn largest_standalone_count() {
    assert_eq!(msg(1023, "t"), "memory allocation of 1023 bytes (for type t) failed");
}

#[test]
fn half_kibibyte_above_two() {
    assert_eq!(
        msg(2560, "[u8; 2560]"),
        "memory allocation of 2.50 kibytes (for type [u8; 2560]) failed"
    );
}

#[test]
fn exactly_two_kibibytes() {
    assert_eq!(msg(2048, "[u8; 2048]"), "memory allocation of 2 kibytes (for type [u8; 2048]) failed");
}

#[test]
fn exactly_one_kibibyte() {
    assert_eq!(msg(1024, "t"), "memory allocation of 1 kibytes (for type t) failed");
}

#[test]
fn one_and_a_half_kibibytes() {
    assert_eq!(msg(1536, "t"), "memory allocation of 1.50 kibytes (for type t) failed");
}

#[test]
fn hundredths_round_ties_to_even() {
    // 1152 / 1024 = 1.125 exactly; fixed-precision formatting shows 1.12.
    assert_eq!(msg(1152, "t"), "memory allocation of 1.12 kibytes (for type t) failed");
}

#[test]
fn just_under_one_mebibyte() {
    // 1048575 / 1024 = 1023.99902...; rounding carries into the whole part.
    assert_eq!(msg(1048575, "t"), "memory allocation of 1024.00 kibytes (for type t) failed");
}

#[test]
fn exactly_one_mebibyte() {
    assert_eq!(msg(1 << 20, "t"), "memory allocation of 1 mibytes (for type t) failed");
}

#[test]
fn gibibytes_with_decimals() {
    assert_eq!(
        msg(2_684_354_560, "t"),
        "memory allocation of 2.50 gibytes (for type t) failed"
    );
}

#[test]
fn exactly_one_tebibyte() {
    assert_eq!(msg(1 << 40, "t"), "memory allocation of 1 tibytes (for type t) failed");
}

#[test]
fn exactly_one_pebibyte() {
    assert_eq!(msg(1 << 50, "t"), "memory allocation of 1 pibytes (for type t) failed");
}

#[test]
fn largest_count_uses_exbi() {
    assert_eq!(
        msg(usize::MAX, "t"),
        "memory allocation of 16.00 eibytes (for type t) failed"
    );
}

#[test]
fn message_through_or_drop_error() {
    match trybox::or_drop(3u32) {
        Ok(b) => {
            let e = ErrorWith(*b.get()).without_payload();
            assert_eq!(
                trybox::render_message(e.layout(), "u32"),
                "memory allocation of 4 bytes (for type u32) failed"
            );
        }
        Err(_) => panic!("allocation of a u32 failed"),
    }
}
