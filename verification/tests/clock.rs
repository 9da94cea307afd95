use hydra_nexus::clock::{date_time, time_of_day};

fn two_digits(s: &[char], i: usize) -> u32 {
    assert!(s[i].is_ascii_digit() && s[i + 1].is_ascii_digit());
    s[i].to_digit(10).unwrap() * 10 + s[i + 1].to_digit(10).unwrap()
}

fn check_time_of_day(t: &[char]) {
    assert_eq!(t.len(), 8);
    assert_eq!(t[2], ':');
    assert_eq!(t[5], ':');
    assert!(two_digits(t, 0) <= 23);
    assert!(two_digits(t, 3) <= 59);
    assert!(two_digits(t, 6) <= 60);
}

#[test]
fn time_of_day_has_clock_shape() {
    let t: Vec<char> = time_of_day().chars().collect();
    check_time_of_day(&t);
}

#[test]
fn date_time_has_calendar_shape() {
    let d: Vec<char> = date_time().chars().collect();
    let n = d.len();
    assert!(n >= 19);
    let year = &d[..n - 15];
    assert_eq!(year.len(), 4);
    assert!(year.iter().all(|c| c.is_ascii_digit()));
    assert_eq!(d[n - 15], '-');
    let month = two_digits(&d, n - 14);
    assert!((1..=12).contains(&month));
    assert_eq!(d[n - 12], '-');
    let day = two_digits(&d, n - 11);
    assert!((1..=31).contains(&day));
    assert_eq!(d[n - 9], ' ');
    check_time_of_day(&d[n - 8..]);
}
