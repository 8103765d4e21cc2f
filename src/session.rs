use crate::datetime::DateTime;
use vstd::prelude::*;
use vstd::string::StringExecFns;

verus! {

/// One surf session. `wave_height` is in hundredths of a foot.
#[derive(Debug)]
pub struct Session {
    pub id: Option<u32>,
    pub location: String,
    pub date: DateTime,
    pub duration: u16,
    pub rating: u8,
    pub wave_height: i64,
}

/// The five fields that every session must have.
#[derive(Clone, Copy, Debug, PartialEq, Eq, Structural)]
pub enum Field {
    Location,
    Date,
    Duration,
    Rating,
    WaveHeight,
}

impl Field {
    /// The field's name, as a user reads it.
    pub fn name(&self) -> (r: &'static str)
        ensures
            r@ == self.spec_name(),
    {
        let r = match self {
            Field::Location => "location",
            Field::Date => "date",
            Field::Duration => "duration",
            Field::Rating => "rating",
            Field::WaveHeight => "wave_height",
        };
        proof {
            reveal_strlit("location");
            reveal_strlit("date");
            reveal_strlit("duration");
            reveal_strlit("rating");
            reveal_strlit("wave_height");
        }
        r
    }

    pub open spec fn spec_name(&self) -> Seq<char> {
        match self {
            Field::Location => "location"@,
            Field::Date => "date"@,
            Field::Duration => "duration"@,
            Field::Rating => "rating"@,
            Field::WaveHeight => "wave_height"@,
        }
    }
}

/// Why a builder could not produce a session.
#[derive(Clone, Copy, Debug, PartialEq, Eq, Structural)]
pub enum BuildError {
    MissingField(Field),
}

impl BuildError {
    /// What the user is told: `<field> is required`.
    pub fn message(&self) -> (r: String)
        ensures
            match self {
                BuildError::MissingField(f) => r@ == f.spec_name() + " is required"@,
            },
    {
        match self {
            BuildError::MissingField(f) => {
                let mut r = f.name().to_owned();
                r.append(" is required");
                r
            },
        }
    }
}

/// What a builder holds: each field, if it was supplied.
pub struct BuilderModel {
    pub location: Option<Seq<char>>,
    pub date: Option<DateTime>,
    pub duration: Option<u16>,
    pub rating: Option<u8>,
    pub wave_height: Option<i64>,
}

impl BuilderModel {
    pub open spec fn empty() -> BuilderModel {
        BuilderModel { location: None, date: None, duration: None, rating: None, wave_height: None }
    }

    pub open spec fn with_location(self, v: Seq<char>) -> BuilderModel {
        BuilderModel { location: Some(v), ..self }
    }

    pub open spec fn with_date(self, v: DateTime) -> BuilderModel {
        BuilderModel { date: Some(v), ..self }
    }

    pub open spec fn with_duration(self, v: u16) -> BuilderModel {
        BuilderModel { duration: Some(v), ..self }
    }

    pub open spec fn with_rating(self, v: u8) -> BuilderModel {
        BuilderModel { rating: Some(v), ..self }
    }

    pub open spec fn with_wave_height(self, v: i64) -> BuilderModel {
        BuilderModel { wave_height: Some(v), ..self }
    }

    /// The first field, in declaration order, that was never supplied.
    pub open spec fn missing(self) -> Option<Field> {
        if self.location is None {
            Some(Field::Location)
        } else if self.date is None {
            Some(Field::Date)
        } else if self.duration is None {
            Some(Field::Duration)
        } else if self.rating is None {
            Some(Field::Rating)
        } else if self.wave_height is None {
            Some(Field::WaveHeight)
        } else {
            None
        }
    }

    /// Every field was supplied.
    pub open spec fn complete(self) -> bool {
        self.location is Some && self.date is Some && self.duration is Some && self.rating is Some
            && self.wave_height is Some
    }

    /// `s` is the session that a complete builder produces: no identifier,
    /// and each field as last supplied.
    pub open spec fn produces(self, s: Session) -> bool {
        &&& s.id is None
        &&& self.location == Some(s.location@)
        &&& self.date == Some(s.date)
        &&& self.duration == Some(s.duration)
        &&& self.rating == Some(s.rating)
        &&& self.wave_height == Some(s.wave_height)
    }
}

/// Gathers the fields of a session one at a time.
pub struct SessionBuilder {
    location: Option<String>,
    date: Option<DateTime>,
    duration: Option<u16>,
    rating: Option<u8>,
    wave_height: Option<i64>,
}

impl View for SessionBuilder {
    type V = BuilderModel;

    closed spec fn view(&self) -> BuilderModel {
        BuilderModel {
            location: match self.location {
                Some(l) => Some(l@),
                None => None,
            },
            date: self.date,
            duration: self.duration,
            rating: self.rating,
            wave_height: self.wave_height,
        }
    }
}

impl SessionBuilder {
    /// A builder with no field supplied.
    pub fn builder() -> (r: SessionBuilder)
        ensures
            r@ == BuilderModel::empty(),
    {
        SessionBuilder { location: None, date: None, duration: None, rating: None, wave_height: None }
    }

    pub fn location(&mut self, location: String)
        ensures
            final(self)@ == old(self)@.with_location(location@),
    {
        self.location = Some(location);
    }

    pub fn date(&mut self, date: DateTime)
        ensures
            final(self)@ == old(self)@.with_date(date),
    {
        self.date = Some(date);
    }

    pub fn duration(&mut self, duration: u16)
        ensures
            final(self)@ == old(self)@.with_duration(duration),
    {
        self.duration = Some(duration);
    }

    pub fn rating(&mut self, rating: u8)
        ensures
            final(self)@ == old(self)@.with_rating(rating),
    {
        self.rating = Some(rating);
    }

    /// Supplies the wave height, in hundredths of a foot.
    pub fn wave_height(&mut self, wave_height: i64)
        ensures
            final(self)@ == old(self)@.with_wave_height(wave_height),
    {
        self.wave_height = Some(wave_height);
    }

    /// The finished session, or the first field that was never supplied.
    pub fn build(self) -> (r: Result<Session, BuildError>)
        ensures
            match r {
                Ok(s) => self@.missing() is None && self@.produces(s),
                Err(BuildError::MissingField(f)) => self@.missing() == Some(f),
            },
    {
        let location = match self.location {
            Some(v) => v,
            None => return Err(BuildError::MissingField(Field::Location)),
        };
        let date = match self.date {
            Some(v) => v,
            None => return Err(BuildError::MissingField(Field::Date)),
        };
        let duration = match self.duration {
            Some(v) => v,
            None => return Err(BuildError::MissingField(Field::Duration)),
        };
        let rating = match self.rating {
            Some(v) => v,
            None => return Err(BuildError::MissingField(Field::Rating)),
        };
        let wave_height = match self.wave_height {
            Some(v) => v,
            None => return Err(BuildError::MissingField(Field::WaveHeight)),
        };
        Ok(Session { id: None, location, date, duration, rating, wave_height })
    }
}

/// A builder produces a session exactly when each of the five fields was
/// supplied; otherwise it names a field that was not.
pub proof fn lemma_build_needs_every_field(b: BuilderModel)
    ensures
        b.missing() is None <==> b.complete(),
        b.missing() matches Some(f) ==> match f {
            Field::Location => b.location is None,
            Field::Date => b.date is None,
            Field::Duration => b.duration is None,
            Field::Rating => b.rating is None,
            Field::WaveHeight => b.wave_height is None,
        },
{
}

/// Supplying a field twice keeps only the second value, whatever else was
/// supplied in between; so a built session carries the last value given
/// for each field.
pub proof fn lemma_last_value_wins(
    b: BuilderModel,
    l1: Seq<char>,
    l2: Seq<char>,
    d1: DateTime,
    d2: DateTime,
    m1: u16,
    m2: u16,
    r1: u8,
    r2: u8,
    w1: i64,
    w2: i64,
)
    ensures
        b.with_location(l1).with_date(d1).with_duration(m1).with_rating(r1).with_wave_height(
            w1,
        ).with_location(l2).with_date(d2).with_duration(m2).with_rating(r2).with_wave_height(w2)
            == b.with_location(l2).with_date(d2).with_duration(m2).with_rating(r2).with_wave_height(
            w2,
        ),
        forall|s: Session|
            b.with_location(l1).with_location(l2).with_date(d1).with_date(d2).with_duration(
                m1,
            ).with_duration(m2).with_rating(r1).with_rating(r2).with_wave_height(
                w1,
            ).with_wave_height(w2).produces(s) <==> (s.id is None && s.location@ == l2 && s.date
                == d2 && s.duration == m2 && s.rating == r2 && s.wave_height == w2),
{
}

} // verus!
