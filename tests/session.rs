use surflog::datetime::DateTime;
use surflog::session::{BuildError, Field, SessionBuilder};

fn filled() -> SessionBuilder {
    let mut b = SessionBuilder::builder();
    b.location("Pipeline".to_string());
    b.date(DateTime::parse("2024-03-10 07:30").unwrap());
    b.duration(45);
    b.rating(8);
    b.wave_height(650);
    b
}

#[test]
fn build_with_every_field() {
    let s = filled().build().unwrap();
    assert_eq!(s.id, None);
    assert_eq!(s.location, "Pipeline");
    assert_eq!(s.date, DateTime::parse("2024-03-10 07:30").unwrap());
    assert_eq!(s.duration, 45);
    assert_eq!(s.rating, 8);
    assert_eq!(s.wave_height, 650);
}

#[test]
fn build_empty_names_location() {
    assert_eq!(SessionBuilder::builder().build().unwrap_err(), BuildError::MissingField(Field::Location));
}

#[test]
fn build_names_each_missing_field() {
    let mut b = SessionBuilder::builder();
    b.location("Malibu".to_string());
    b.duration(30);
    b.rating(5);
    b.wave_height(200);
    assert_eq!(b.build().unwrap_err(), BuildError::MissingField(Field::Date));

    let mut b = SessionBuilder::builder();
    b.location("Malibu".to_string());
    b.date(DateTime::parse("2024-01-01 00:00").unwrap());
    b.rating(5);
    b.wave_height(200);
    assert_eq!(b.build().unwrap_err(), BuildError::MissingField(Field::Duration));

    let mut b = SessionBuilder::builder();
    b.location("Malibu".to_string());
    b.date(DateTime::parse("2024-01-01 00:00").unwrap());
    b.duration(30);
    b.wave_height(200);
    assert_eq!(b.build().unwrap_err(), BuildError::MissingField(Field::Rating));

    let mut b = SessionBuilder::builder();
    b.location("Malibu".to_string());
    b.date(DateTime::parse("2024-01-01 00:00").unwrap());
    b.duration(30);
    b.rating(5);
    assert_eq!(b.build().unwrap_err(), BuildError::MissingField(Field::WaveHeight));
}

#[test]
fn last_value_supplied_wins() {
    let mut b = filled();
    b.location("Rincon".to_string());
    b.date(DateTime::parse("2025-12-31 23:59").unwrap());
    b.duration(120);
    b.rating(10);
    b.wave_height(75);
    let s = b.build().unwrap();
    assert_eq!(s.location, "Rincon");
    assert_eq!(s.date, DateTime::parse("2025-12-31 23:59").unwrap());
    assert_eq!(s.duration, 120);
    assert_eq!(s.rating, 10);
    assert_eq!(s.wave_height, 75);
}

#[test]
fn field_names() {
    assert_eq!(Field::Location.name(), "location");
    assert_eq!(Field::Date.name(), "date");
    assert_eq!(Field::Duration.name(), "duration");
    assert_eq!(Field::Rating.name(), "rating");
    assert_eq!(Field::WaveHeight.name(), "wave_height");
}

#[test]
fn build_error_messages() {
    assert_eq!(SessionBuilder::builder().build().unwrap_err().message(), "location is required");
    assert_eq!(BuildError::MissingField(Field::WaveHeight).message(), "wave_height is required");
    assert_eq!(BuildError::MissingField(Field::Date).message(), "date is required");
}
