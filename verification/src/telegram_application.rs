use vstd::prelude::*;

verus! {

/// The user who owns the pack that Telegram numbers `set_id`. Telegram puts
/// the low 32 bits of the owner's id into the high half of the pack's
/// number, and sets the byte above the low three to one where the owner's
/// id needs a 33rd bit.
pub open spec fn owner_of(set_id: i64) -> int {
    let high: int = (set_id as int) / 0x1_0000_0000;
    if ((set_id as int) / 0x100_0000) % 0x100 == 1 {
        high + 0x1_0000_0000
    } else {
        high
    }
}

/// Work out who owns the pack that Telegram numbers `set_id`.
pub fn get_sticker_set_user_id(set_id: i64) -> (user_id: i64)
    ensures
        user_id == owner_of(set_id),
{
    let mut user_id: i64 = set_id >> 32;
    let flag: i64 = (set_id >> 24) & 0xff;
    assert(set_id >> 32 == (set_id as int) / 0x1_0000_0000) by (bit_vector);
    assert((set_id >> 24) & 0xff == ((set_id as int) / 0x100_0000) % 0x100) by (bit_vector);
    if flag == 1 {
        user_id += 0x100000000;
    }
    user_id
}


/// What signing in asks for. The program around the library carries it
/// out and hands back a [`AuthOutcome`].
#[derive(Debug, Clone, PartialEq, Eq)]
pub enum AuthCall {
    /// Ask Telegram whether the application is signed in.
    IsAuthorized,
    /// Ask Telegram to send a login code to the phone.
    RequestLoginCode { phone: String },
    /// Ask the person at the keyboard for the code.
    ReadCode,
    /// Sign in with the code.
    SignIn { code: String },
    /// Hand in the password of the account.
    CheckPassword { password: String },
    /// Write the session to disk.
    SaveSession,
    /// Sign out and disconnect.
    SignOut,
}

/// What came of an [`AuthCall`].
#[derive(Debug, Clone, PartialEq, Eq)]
pub enum AuthOutcome {
    /// Whether the application is signed in.
    Authorized(bool),
    /// The call was carried out and has nothing to tell.
    Done,
    /// The code that was typed in.
    Code(String),
    /// Telegram wants the password of the account as well.
    PasswordRequired,
    /// The call failed, for the reason given.
    Failed(String),
}

/// Signing in: how far it has come.
#[derive(Debug, Clone, PartialEq, Eq)]
pub enum Authorize {
    Checking { phone: String, password: String },
    Requesting { password: String },
    Reading { password: String },
    SigningIn { password: String },
    CheckingPassword,
    Saving,
    SigningOut,
    Over,
}

/// What signing in does next.
#[derive(Debug, PartialEq, Eq)]
pub enum AuthStep {
    Call(AuthCall),
    /// Signing in is over: well, or with the reason for which it failed.
    Finished(Result<(), String>),
}

/// Begin to sign the application in as the account with the number
/// `phone` and the password `password`: by asking whether it is signed in
/// already.
pub fn authorize(phone: &str, password: &str) -> (begun: (Authorize, AuthCall))
    ensures
        begun.0 matches Authorize::Checking { phone: kept_phone, password: kept_password }
            && kept_phone@ == phone@ && kept_password@ == password@,
        begun.1 == AuthCall::IsAuthorized,
{
    (
        Authorize::Checking {
            phone: String::from_str(phone),
            password: String::from_str(password),
        },
        AuthCall::IsAuthorized,
    )
}

impl Authorize {
    /// Whether `after` and `step` end the signing in with the failure that
    /// `outcome` tells, or with the word that the outcome was not to be
    /// expected.
    pub open spec fn fails(outcome: AuthOutcome, after: Authorize, step: AuthStep) -> bool {
        &&& after is Over
        &&& step matches AuthStep::Finished(Err(reason))
        &&& match outcome {
            AuthOutcome::Failed(told) => reason@ == told@,
            _ => reason@ == "unexpected answer"@,
        }
    }

    /// Whether `after` and `step` are what follows `self` once `outcome`
    /// has come in.
    ///
    /// An application that is signed in has nothing to do. Any other asks
    /// for a login code, reads it from the keyboard and signs in with it,
    /// handing in the password where Telegram asks for it. Once signed in
    /// it saves the session, and if the session cannot be saved it signs
    /// out again; either way it ends well. Any other failure ends it at
    /// once, with the reason.
    pub open spec fn follows(self, outcome: AuthOutcome, after: Authorize, step: AuthStep) -> bool {
        match self {
            Authorize::Checking { phone, password } => match outcome {
                AuthOutcome::Authorized(true) => after is Over && step == AuthStep::Finished(
                    Ok(()),
                ),
                AuthOutcome::Authorized(false) => {
                    &&& after matches Authorize::Requesting { password: kept }
                    &&& kept@ == password@
                    &&& step matches AuthStep::Call(AuthCall::RequestLoginCode { phone: asked })
                    &&& asked@ == phone@
                },
                _ => Self::fails(outcome, after, step),
            },
            Authorize::Requesting { password } => match outcome {
                AuthOutcome::Done => {
                    &&& after matches Authorize::Reading { password: kept }
                    &&& kept@ == password@
                    &&& step == AuthStep::Call(AuthCall::ReadCode)
                },
                _ => Self::fails(outcome, after, step),
            },
            Authorize::Reading { password } => match outcome {
                AuthOutcome::Code(code) => {
                    &&& after matches Authorize::SigningIn { password: kept }
                    &&& kept@ == password@
                    &&& step matches AuthStep::Call(AuthCall::SignIn { code: typed })
                    &&& typed@ == code@
                },
                _ => Self::fails(outcome, after, step),
            },
            Authorize::SigningIn { password } => match outcome {
                AuthOutcome::Done => after is Saving && step == AuthStep::Call(
                    AuthCall::SaveSession,
                ),
                AuthOutcome::PasswordRequired => {
                    &&& after is CheckingPassword
                    &&& step matches AuthStep::Call(AuthCall::CheckPassword { password: given })
                    &&& given@ == password@
                },
                _ => Self::fails(outcome, after, step),
            },
            Authorize::CheckingPassword => match outcome {
                AuthOutcome::Done => after is Saving && step == AuthStep::Call(
                    AuthCall::SaveSession,
                ),
                _ => Self::fails(outcome, after, step),
            },
            Authorize::Saving => match outcome {
                AuthOutcome::Done => after is Over && step == AuthStep::Finished(Ok(())),
                _ => after is SigningOut && step == AuthStep::Call(AuthCall::SignOut),
            },
            Authorize::SigningOut => after is Over && step == AuthStep::Finished(Ok(())),
            Authorize::Over => Self::fails(outcome, after, step),
        }
    }

    /// End the signing in with the failure that `outcome` tells.
    fn fail(outcome: AuthOutcome) -> (next: (Authorize, AuthStep))
        ensures
            Self::fails(outcome, next.0, next.1),
    {
        let reason: String = match outcome {
            AuthOutcome::Failed(told) => told,
            _ => String::from_str("unexpected answer"),
        };
        (Authorize::Over, AuthStep::Finished(Err(reason)))
    }

    /// Take in what came of the latest call and say what to do next.
    pub fn resume(self, outcome: AuthOutcome) -> (next: (Authorize, AuthStep))
        ensures
            self.follows(outcome, next.0, next.1),
    {
        match self {
            Authorize::Checking { phone, password } => match outcome {
                AuthOutcome::Authorized(true) => (Authorize::Over, AuthStep::Finished(Ok(()))),
                AuthOutcome::Authorized(false) => (
                    Authorize::Requesting { password },
                    AuthStep::Call(AuthCall::RequestLoginCode { phone }),
                ),
                _ => Self::fail(outcome),
            },
            Authorize::Requesting { password } => match outcome {
                AuthOutcome::Done => (
                    Authorize::Reading { password },
                    AuthStep::Call(AuthCall::ReadCode),
                ),
                _ => Self::fail(outcome),
            },
            Authorize::Reading { password } => match outcome {
                AuthOutcome::Code(code) => (
                    Authorize::SigningIn { password },
                    AuthStep::Call(AuthCall::SignIn { code }),
                ),
                _ => Self::fail(outcome),
            },
            Authorize::SigningIn { password } => match outcome {
                AuthOutcome::Done => (Authorize::Saving, AuthStep::Call(AuthCall::SaveSession)),
                AuthOutcome::PasswordRequired => (
                    Authorize::CheckingPassword,
                    AuthStep::Call(AuthCall::CheckPassword { password }),
                ),
                _ => Self::fail(outcome),
            },
            Authorize::CheckingPassword => match outcome {
                AuthOutcome::Done => (Authorize::Saving, AuthStep::Call(AuthCall::SaveSession)),
                _ => Self::fail(outcome),
            },
            Authorize::Saving => match outcome {
                AuthOutcome::Done => (Authorize::Over, AuthStep::Finished(Ok(()))),
                _ => (Authorize::SigningOut, AuthStep::Call(AuthCall::SignOut)),
            },
            Authorize::SigningOut => (Authorize::Over, AuthStep::Finished(Ok(()))),
            Authorize::Over => Self::fail(outcome),
        }
    }
}

/// What the program does once it knows whether the application is signed
/// in.
#[derive(Debug, Clone, Copy, PartialEq, Eq, Structural)]
pub enum Startup {
    /// Sign in, then stop.
    Authorize,
    /// Listen for updates.
    Run,
    /// Stop: the bot cannot run before the application is signed in.
    Refuse,
}

/// Decide what the program does, told to sign in or to run: it runs only
/// with an application that is signed in.
pub fn startup(sign_in: bool, authorized: bool) -> (startup: Startup)
    ensures
        startup == if sign_in {
            Startup::Authorize
        } else if authorized {
            Startup::Run
        } else {
            Startup::Refuse
        },
{
    if sign_in {
        Startup::Authorize
    } else if authorized {
        Startup::Run
    } else {
        Startup::Refuse
    }
}

} // verus!
