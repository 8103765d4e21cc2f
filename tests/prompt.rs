use surflog::datetime::DateTime;
use surflog::prompt::{read_date, read_duration, read_location, read_rating, Rejection};

#[test]
fn location_answer_or_previous() {
    assert_eq!(read_location("Malibu", &None), Ok("Malibu".to_string()));
    assert_eq!(read_location("Malibu", &Some("Rincon".to_string())), Ok("Malibu".to_string()));
    assert_eq!(read_location("", &Some("Rincon".to_string())), Ok("Rincon".to_string()));
    assert_eq!(read_location("", &None), Err(Rejection::EmptyLocation));
}

#[test]
fn date_answer() {
    assert_eq!(read_date("2024-03-10 07:30"), Ok(DateTime { year: 2024, month: 3, day: 10, hour: 7, minute: 30 }));
    assert_eq!(read_date("yesterday"), Err(Rejection::InvalidDate));
}

#[test]
fn duration_answer() {
    assert_eq!(read_duration("45"), Ok(45));
    assert_eq!(read_duration("+45"), Ok(45));
    assert_eq!(read_duration("0"), Ok(0));
    assert_eq!(read_duration("65535"), Ok(65535));
    assert_eq!(read_duration("65536"), Err(Rejection::InvalidDuration));
    assert_eq!(read_duration("-1"), Err(Rejection::InvalidDuration));
    assert_eq!(read_duration("4.5"), Err(Rejection::InvalidDuration));
    assert_eq!(read_duration("abc"), Err(Rejection::InvalidDuration));
    assert_eq!(read_duration(""), Err(Rejection::InvalidDuration));
}

#[test]
fn rating_answer() {
    assert_eq!(read_rating("1"), Ok(1));
    assert_eq!(read_rating("10"), Ok(10));
    assert_eq!(read_rating("0"), Err(Rejection::RatingOutOfRange));
    assert_eq!(read_rating("11"), Err(Rejection::RatingOutOfRange));
    assert_eq!(read_rating("255"), Err(Rejection::RatingOutOfRange));
    assert_eq!(read_rating("256"), Err(Rejection::InvalidRating));
    assert_eq!(read_rating("eight"), Err(Rejection::InvalidRating));
}

#[test]
fn rejection_messages() {
    assert_eq!(Rejection::EmptyLocation.message(), "Location cannot be empty.");
    assert_eq!(Rejection::RatingOutOfRange.message(), "Rating must be between 1 and 10.");
    assert_eq!(Rejection::InvalidDate.message(), "Invalid date format. Please use 'YYYY-MM-DD HH:MM'.");
    assert_eq!(Rejection::InvalidDuration.message(), "Please enter a valid number for duration.");
    assert_eq!(Rejection::InvalidRating.message(), "Please enter a valid number for rating.");
}
