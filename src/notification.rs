use vstd::prelude::*;

verus! {

/// A finished notification. The three required fields are always present;
/// the optional ones carry an explicit absent marker.
#[derive(Debug)]
pub struct Notification {
    pub title: String,
    pub subtitle: String,
    pub message: String,
    pub sound: Option<String>,
    pub open: Option<String>,
}

/// The required fields, one of which a failed build names.
#[derive(Debug, Clone, Copy, PartialEq, Eq, Structural)]
pub enum RequiredField {
    Title,
    Subtitle,
    Message,
}

/// Why a build failed.
#[derive(Debug, Clone, Copy, PartialEq, Eq, Structural)]
pub enum BuildError {
    /// The named required field was never set.
    MissingField(RequiredField),
}

/// The name of a required field as a caller writes it.
pub open spec fn field_name(f: RequiredField) -> Seq<char> {
    match f {
        RequiredField::Title => "title"@,
        RequiredField::Subtitle => "subtitle"@,
        RequiredField::Message => "message"@,
    }
}

impl RequiredField {
    /// The field's name.
    pub fn name(&self) -> (r: &'static str)
        ensures
            r@ == field_name(*self),
    {
        match self {
            RequiredField::Title => "title",
            RequiredField::Subtitle => "subtitle",
            RequiredField::Message => "message",
        }
    }
}

impl BuildError {
    /// The required field that a failed build names.
    pub open spec fn field_spec(self) -> RequiredField {
        match self {
            BuildError::MissingField(f) => f,
        }
    }

    /// The required field that was missing.
    pub fn field(&self) -> (r: RequiredField)
        ensures
            r == self.field_spec(),
    {
        match self {
            BuildError::MissingField(f) => *f,
        }
    }
}

/// What a builder has been given so far, as text.
pub struct BuilderView {
    pub title: Option<Seq<char>>,
    pub subtitle: Option<Seq<char>>,
    pub message: Option<Seq<char>>,
    pub sound: Option<Seq<char>>,
    pub open: Option<Seq<char>>,
}

/// A notification as text.
pub struct NotificationView {
    pub title: Seq<char>,
    pub subtitle: Seq<char>,
    pub message: Seq<char>,
    pub sound: Option<Seq<char>>,
    pub open: Option<Seq<char>>,
}

/// The text of an optional field.
pub open spec fn text_of(o: Option<String>) -> Option<Seq<char>> {
    match o {
        Some(s) => Some(s@),
        None => None,
    }
}

impl View for Notification {
    type V = NotificationView;

    open spec fn view(&self) -> NotificationView {
        NotificationView {
            title: self.title@,
            subtitle: self.subtitle@,
            message: self.message@,
            sound: text_of(self.sound),
            open: text_of(self.open),
        }
    }
}

impl BuilderView {
    pub open spec fn with_title(self, v: Seq<char>) -> BuilderView {
        BuilderView { title: Some(v), ..self }
    }

    pub open spec fn with_subtitle(self, v: Seq<char>) -> BuilderView {
        BuilderView { subtitle: Some(v), ..self }
    }

    pub open spec fn with_message(self, v: Seq<char>) -> BuilderView {
        BuilderView { message: Some(v), ..self }
    }

    pub open spec fn with_sound(self, v: Seq<char>) -> BuilderView {
        BuilderView { sound: Some(v), ..self }
    }

    pub open spec fn with_open(self, v: Seq<char>) -> BuilderView {
        BuilderView { open: Some(v), ..self }
    }

    /// The first required field, in the order title, subtitle, message,
    /// that has not been set.
    pub open spec fn first_missing(self) -> Option<RequiredField> {
        if self.title is None {
            Some(RequiredField::Title)
        } else if self.subtitle is None {
            Some(RequiredField::Subtitle)
        } else if self.message is None {
            Some(RequiredField::Message)
        } else {
            None
        }
    }

    /// The outcome of finalising: the missing field, or the notification
    /// made of the fields as they were last set.
    pub open spec fn build(self) -> Result<NotificationView, BuildError> {
        match self.first_missing() {
            Some(f) => Err(BuildError::MissingField(f)),
            None => Ok(
                NotificationView {
                    title: self.title->0,
                    subtitle: self.subtitle->0,
                    message: self.message->0,
                    sound: self.sound,
                    open: self.open,
                },
            ),
        }
    }
}

/// Collects field assignments; each setter replaces what an earlier call
/// of it set.
#[derive(Debug, Clone)]
pub struct NotificationBuilder {
    title: Option<String>,
    subtitle: Option<String>,
    message: Option<String>,
    sound: Option<String>,
    open: Option<String>,
}

impl View for NotificationBuilder {
    type V = BuilderView;

    closed spec fn view(&self) -> BuilderView {
        BuilderView {
            title: text_of(self.title),
            subtitle: text_of(self.subtitle),
            message: text_of(self.message),
            sound: text_of(self.sound),
            open: text_of(self.open),
        }
    }
}

fn copy_text(o: &Option<String>) -> (r: Option<String>)
    ensures
        text_of(r) == text_of(*o),
{
    match o {
        Some(s) => Some(s.clone()),
        None => None,
    }
}

impl Default for NotificationBuilder {
    fn default() -> (r: Self)
        ensures
            r@ == (BuilderView {
                title: None,
                subtitle: None,
                message: None,
                sound: None,
                open: None,
            }),
    {
        NotificationBuilder { title: None, subtitle: None, message: None, sound: None, open: None }
    }
}

impl NotificationBuilder {
    /// A builder with no field set.
    pub fn new() -> (r: Self)
        ensures
            r@ == (BuilderView {
                title: None,
                subtitle: None,
                message: None,
                sound: None,
                open: None,
            }),
    {
        NotificationBuilder { title: None, subtitle: None, message: None, sound: None, open: None }
    }

    pub fn title(self, value: &str) -> (r: Self)
        ensures
            r@ == self@.with_title(value@),
    {
        NotificationBuilder { title: Some(String::from_str(value)), ..self }
    }

    pub fn subtitle(self, value: &str) -> (r: Self)
        ensures
            r@ == self@.with_subtitle(value@),
    {
        NotificationBuilder { subtitle: Some(String::from_str(value)), ..self }
    }

    pub fn message(self, value: &str) -> (r: Self)
        ensures
            r@ == self@.with_message(value@),
    {
        NotificationBuilder { message: Some(String::from_str(value)), ..self }
    }

    pub fn sound(self, value: &str) -> (r: Self)
        ensures
            r@ == self@.with_sound(value@),
    {
        NotificationBuilder { sound: Some(String::from_str(value)), ..self }
    }

    pub fn open(self, value: &str) -> (r: Self)
        ensures
            r@ == self@.with_open(value@),
    {
        NotificationBuilder { open: Some(String::from_str(value)), ..self }
    }

    /// Finalises: fails naming the first required field that is unset,
    /// otherwise yields a notification of the fields as last set.
    pub fn build(&self) -> (r: Result<Notification, BuildError>)
        ensures
            r is Ok <==> self@.first_missing() is None,
            match r {
                Ok(n) => self@.build() == Ok::<NotificationView, BuildError>(n@),
                Err(e) => self@.build() == Err::<NotificationView, BuildError>(e),
            },
    {
        let title = match &self.title {
            Some(s) => s.clone(),
            None => {
                return Err(BuildError::MissingField(RequiredField::Title));
            },
        };
        let subtitle = match &self.subtitle {
            Some(s) => s.clone(),
            None => {
                return Err(BuildError::MissingField(RequiredField::Subtitle));
            },
        };
        let message = match &self.message {
            Some(s) => s.clone(),
            None => {
                return Err(BuildError::MissingField(RequiredField::Message));
            },
        };
        Ok(
            Notification {
                title,
                subtitle,
                message,
                sound: copy_text(&self.sound),
                open: copy_text(&self.open),
            },
        )
    }
}

impl BuilderView {
    /// What is set for a required field.
    pub open spec fn required(self, f: RequiredField) -> Option<Seq<char>> {
        match f {
            RequiredField::Title => self.title,
            RequiredField::Subtitle => self.subtitle,
            RequiredField::Message => self.message,
        }
    }
}

/// Setting a field twice keeps only the second value: for each setter,
/// a builder that was given `first` and then `second` is the builder
/// given `second` alone.
pub proof fn setters_last_write_wins(b: BuilderView, first: Seq<char>, second: Seq<char>)
    ensures
        b.with_title(first).with_title(second) == b.with_title(second),
        b.with_subtitle(first).with_subtitle(second) == b.with_subtitle(second),
        b.with_message(first).with_message(second) == b.with_message(second),
        b.with_sound(first).with_sound(second) == b.with_sound(second),
        b.with_open(first).with_open(second) == b.with_open(second),
{
}

/// Once title, subtitle and message are set, finalising succeeds and the
/// notification holds every field exactly as the builder last had it.
pub proof fn build_succeeds_when_complete(b: BuilderView)
    requires
        b.title is Some,
        b.subtitle is Some,
        b.message is Some,
    ensures
        b.build() == Ok::<NotificationView, BuildError>(
            NotificationView {
                title: b.title->0,
                subtitle: b.subtitle->0,
                message: b.message->0,
                sound: b.sound,
                open: b.open,
            },
        ),
{
}

/// When a required field is unset, finalising fails and names a required
/// field that is unset.
pub proof fn build_fails_when_incomplete(b: BuilderView)
    requires
        b.title is None || b.subtitle is None || b.message is None,
    ensures
        b.build() is Err,
        b.required(b.build()->Err_0.field_spec()) is None,
{
}

} // verus!
