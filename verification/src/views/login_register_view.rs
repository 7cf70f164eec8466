//! The first screen of every session: log in or register, in two steps.

use vstd::prelude::*;
use vstd::view::View as _;
use crate::db::manage::{
    Manager, Request, first_answer, issued, lemma_issued_one, lemma_issued_then,
};
use crate::input_interface::Events;
use crate::text::{CLEAR_SCREEN, option_line, push_option_line};
use crate::views::base_view::{NavigateTo, View};

verus! {

pub const LOGIN_TITLE: &'static str = "\x1b[1;32mLogin\x1b[0m\r\n\r\n";

pub const LOGIN_ERROR_TITLE: &'static str = "\x1b[1;31mLogin ERROR\x1b[0m\r\n\r\n";

pub const LOGIN_FAILED: &'static str = "Unable to validate user, maybe wrong password?";

pub const REGISTER_FAILED: &'static str = "Unable to create user, maybe username already taken";

pub const USERNAME_PROMPT: &'static str = "\x1b[1;32m> Username: ";

pub const PASSWORD_PROMPT: &'static str = "\x1b[1;32m> Password: ";

pub const LOGIN_HELP: &'static str = "\nUse ↑ (Arrow Up) / ↓ (Arrow Down)";

pub const OPTION_LOGIN: &'static str = "Login";

pub const OPTION_REGISTER: &'static str = "Register";

/// How far the user is through the two steps.
#[derive(PartialEq, Eq, Structural, Clone, Copy, Debug)]
pub enum LoginStage {
    /// Choosing between `Login` and `Register`.
    Choosing,
    /// Typing the user name, echoed.
    Username,
    /// Typing the password, not echoed.
    Password,
    /// Looking at the error of a failed attempt.
    Failed,
}

/// The login and registration screen.
pub struct LoginRegisterView {
    stage: LoginStage,
    is_login: bool,
    username: String,
    password: String,
    navigate_to: NavigateTo,
    selected_index: usize,
    user_id: i32,
}

/// What the login screen is, to a contract.
pub struct LoginModel {
    pub stage: LoginStage,
    /// The attempt is a login, not a registration.
    pub is_login: bool,
    pub username: Seq<char>,
    pub password: Seq<char>,
    pub target: NavigateTo,
    /// The cursor: 0 on `Login`, 1 on `Register`.
    pub selected: int,
    /// The authenticated user, -1 until an attempt succeeds.
    pub user_id: i32,
}

impl LoginModel {
    /// The cursor is on one of the two options, and a screen that has
    /// authenticated a user asks for the menu.
    pub open spec fn wf(self) -> bool {
        &&& 0 <= self.selected < 2
        &&& self.user_id > 0 ==> self.target == NavigateTo::MenuView
    }

    /// The screen of a fresh session.
    pub open spec fn initial() -> LoginModel {
        LoginModel {
            stage: LoginStage::Choosing,
            is_login: false,
            username: Seq::empty(),
            password: Seq::empty(),
            target: NavigateTo::NoneView,
            selected: 0,
            user_id: -1i32,
        }
    }

    pub open spec fn up(self) -> LoginModel {
        if self.selected > 0 {
            LoginModel { selected: self.selected - 1, ..self }
        } else {
            self
        }
    }

    pub open spec fn down(self) -> LoginModel {
        if self.selected < 1 {
            LoginModel { selected: self.selected + 1, ..self }
        } else {
            self
        }
    }

    /// The screen after `Enter` on the option list: the attempt begins with
    /// the user name.
    pub open spec fn selected_entry(self) -> LoginModel {
        LoginModel { is_login: self.selected == 0, stage: LoginStage::Username, ..self }
    }

    /// The screen back at the option list, with the attempt forgotten.
    pub open spec fn reset(self) -> LoginModel {
        LoginModel {
            stage: LoginStage::Choosing,
            is_login: false,
            username: Seq::empty(),
            password: Seq::empty(),
            user_id: -1i32,
            ..self
        }
    }

    /// The screen after the repository accepted the credentials as those of
    /// user `id`.
    pub open spec fn accepted(self, id: i32) -> LoginModel {
        LoginModel { user_id: id, target: NavigateTo::MenuView, ..self }
    }

    /// The screen after the repository turned the credentials down: the
    /// error stays up and the password is forgotten.
    pub open spec fn rejected(self) -> LoginModel {
        LoginModel { stage: LoginStage::Failed, password: Seq::empty(), ..self }
    }

    /// The request that submits the credentials, answered with `answer`: a
    /// check for a login, a new user for a registration.
    pub open spec fn attempt(self, answer: i32) -> Request {
        if self.is_login {
            Request::ValidateUser { username: self.username, password: self.password, id: answer }
        } else {
            Request::CreateUser { username: self.username, password: self.password, id: answer }
        }
    }

    /// What the repository is asked when the credentials are submitted and
    /// it answers the attempt with `answer`: the attempt and, where the
    /// answer is a user, to mark that user as logged in.
    pub open spec fn submission(self, answer: i32) -> Seq<Request> {
        if answer > 0 {
            seq![self.attempt(answer), Request::LoginUser { user_id: answer }]
        } else {
            seq![self.attempt(answer)]
        }
    }

    /// The screen after the repository answered the attempt with `answer`:
    /// accepted as that user where the answer is a user, turned down otherwise.
    pub open spec fn settled(self, answer: i32) -> LoginModel {
        if answer > 0 {
            self.accepted(answer)
        } else {
            self.rejected()
        }
    }

    /// Whether the event submits the credentials to the repository.
    pub open spec fn submits(self, event: Events) -> bool {
        self.stage == LoginStage::Password && event == Events::Enter
    }

    /// The screen with `line` taken as the password.
    pub open spec fn typed(self, line: Seq<char>) -> LoginModel {
        LoginModel { password: line, ..self }
    }

    /// The screen after an event that does not submit the credentials.
    pub open spec fn next(self, event: Events, buffer: Seq<char>) -> LoginModel {
        match self.stage {
            LoginStage::Failed => if event == Events::Enter {
                self.reset()
            } else {
                self
            },
            LoginStage::Choosing => if event == Events::UpArrow {
                self.up()
            } else if event == Events::DownArrow {
                self.down()
            } else if event == Events::Enter {
                self.selected_entry()
            } else {
                self
            },
            LoginStage::Username => if event == Events::Enter {
                LoginModel { username: buffer, stage: LoginStage::Password, ..self }
            } else {
                LoginModel { username: buffer, ..self }
            },
            LoginStage::Password => self.typed(buffer),
        }
    }

    /// The screen's answer to an event that does not submit the credentials:
    /// `Enter` on the option list opens echoed text entry, `Enter` on the
    /// user name opens secret text entry, everything else passes through.
    pub open spec fn outcome(self, event: Events) -> Events {
        if event == Events::Enter && self.stage == LoginStage::Choosing {
            Events::InputModeEnable
        } else if event == Events::Enter && self.stage == LoginStage::Username {
            Events::SecretInputModeEnable
        } else {
            event
        }
    }

    /// The message of a failed attempt.
    pub open spec fn error_message(self) -> Seq<char> {
        if self.is_login {
            LOGIN_FAILED@
        } else {
            REGISTER_FAILED@
        }
    }

    /// The text of the screen. The password is in none of its forms.
    pub open spec fn screen(self) -> Seq<char> {
        CLEAR_SCREEN@ + match self.stage {
            LoginStage::Failed => LOGIN_ERROR_TITLE@ + self.error_message(),
            LoginStage::Username => LOGIN_TITLE@ + USERNAME_PROMPT@ + self.username,
            LoginStage::Password => LOGIN_TITLE@ + PASSWORD_PROMPT@,
            LoginStage::Choosing => LOGIN_TITLE@ + option_line(OPTION_LOGIN@, self.selected == 0)
                + option_line(OPTION_REGISTER@, self.selected == 1) + LOGIN_HELP@,
        }
    }
}

/// Whatever is typed as the password, the screen shows the same text.
pub proof fn lemma_screen_hides_password(model: LoginModel, line: Seq<char>)
    ensures
        model.typed(line).screen() == model.screen(),
{
}

impl vstd::view::View for LoginRegisterView {
    type V = LoginModel;

    closed spec fn view(&self) -> LoginModel {
        LoginModel {
            stage: self.stage,
            is_login: self.is_login,
            username: self.username@,
            password: self.password@,
            target: self.navigate_to,
            selected: self.selected_index as int,
            user_id: self.user_id,
        }
    }
}

impl LoginRegisterView {
    pub fn new() -> (view: LoginRegisterView)
        ensures
            view@ == LoginModel::initial(),
            view.well_formed(),
    {
        Self {
            stage: LoginStage::Choosing,
            is_login: false,
            username: String::new(),
            password: String::new(),
            user_id: -1,
            selected_index: 0,
            navigate_to: NavigateTo::NoneView,
        }
    }

    /// The authenticated user, -1 until an attempt succeeds.
    pub fn get_user_id(&self) -> (id: i32)
        ensures
            id == self@.user_id,
    {
        self.user_id
    }

    pub fn get_stage(&self) -> (stage: LoginStage)
        ensures
            stage == self@.stage,
    {
        self.stage
    }

    /// The cursor's option: 0 on `Login`, 1 on `Register`.
    pub fn get_selected_index(&self) -> (index: usize)
        ensures
            index == self@.selected,
    {
        self.selected_index
    }

    /// Acts on the repository's answer to the attempt: a user is accepted
    /// and marked as logged in, anything else is turned down and asks
    /// nothing more of the repository.
    pub fn settle_credentials(&mut self, answer: i32, repo: &mut Manager) -> (ok: bool)
        ensures
            ok == (answer > 0),
            final(self)@ == old(self)@.settled(answer),
            ok ==> issued(*old(repo), *final(repo), seq![Request::LoginUser { user_id: answer }]),
            !ok ==> *final(repo) == *old(repo),
    {
        if answer > 0 {
            repo.login_user(answer);
            proof {
                lemma_issued_one(*old(repo), *repo, Request::LoginUser { user_id: answer });
            }
            self.user_id = answer;
            self.navigate_to = NavigateTo::MenuView;
            true
        } else {
            self.stage = LoginStage::Failed;
            self.password = String::new();
            false
        }
    }

    /// Submits the credentials, a login to be checked or a registration to
    /// be stored, and acts on the repository's answer.
    pub fn validate_credentials(&mut self, repo: &mut Manager) -> (ok: bool)
        ensures
            ok == (first_answer(*old(repo), *final(repo)) > 0),
            final(self)@ == old(self)@.settled(first_answer(*old(repo), *final(repo))),
            issued(
                *old(repo),
                *final(repo),
                old(self)@.submission(first_answer(*old(repo), *final(repo))),
            ),
            ok ==> final(self)@.user_id == first_answer(*old(repo), *final(repo)),
            !ok ==> first_answer(*old(repo), *final(repo)) == -1,
    {
        let answer: i32 = if self.is_login {
            repo.validate_user(self.username.as_str(), self.password.as_str())
        } else {
            repo.create_user(self.username.as_str(), self.password.as_str())
        };
        let ghost attempted = *repo;
        proof {
            lemma_issued_one(*old(repo), attempted, old(self)@.attempt(answer));
            assert(attempted.journal()[old(repo).journal().len() as int] == old(self)@.attempt(
                answer,
            ));
        }
        let ok = self.settle_credentials(answer, repo);
        proof {
            if ok {
                lemma_issued_then(
                    *old(repo),
                    attempted,
                    *repo,
                    seq![old(self)@.attempt(answer)],
                    seq![Request::LoginUser { user_id: answer }],
                );
                assert(seq![old(self)@.attempt(answer)] + seq![
                    Request::LoginUser { user_id: answer },
                ] =~= old(self)@.submission(answer));
            }
            assert(repo.journal()[old(repo).journal().len() as int] == old(self)@.attempt(answer));
        }
        ok
    }

    pub fn move_up(&mut self)
        ensures
            final(self)@ == old(self)@.up(),
    {
        if self.selected_index > 0 {
            self.selected_index = self.selected_index - 1;
        }
    }

    pub fn move_down(&mut self)
        requires
            old(self).well_formed(),
        ensures
            final(self)@ == old(self)@.down(),
    {
        if self.selected_index < 1 {
            self.selected_index = self.selected_index + 1;
        }
    }

    /// The label under the cursor.
    pub fn get_selection(&self) -> (label: &'static str)
        ensures
            label@ == if self@.selected == 0 {
                OPTION_LOGIN@
            } else {
                OPTION_REGISTER@
            },
    {
        if self.selected_index == 0 {
            OPTION_LOGIN
        } else {
            OPTION_REGISTER
        }
    }

    pub fn handle_selection(&mut self)
        ensures
            final(self)@ == old(self)@.selected_entry(),
    {
        self.is_login = self.selected_index == 0;
        self.stage = LoginStage::Username;
    }

    pub fn reset_view_state(&mut self)
        ensures
            final(self)@ == old(self)@.reset(),
    {
        self.stage = LoginStage::Choosing;
        self.username = String::new();
        self.password = String::new();
        self.is_login = false;
        self.user_id = -1;
    }
}

impl View for LoginRegisterView {
    open spec fn well_formed(&self) -> bool {
        self@.wf()
    }

    open spec fn target(&self) -> NavigateTo {
        self@.target
    }

    fn get_navigate_to(&self) -> (target: &NavigateTo) {
        &self.navigate_to
    }

    fn render(&self) -> (screen: String)
        ensures
            screen@ == self@.screen(),
    {
        let mut output = String::from_str(CLEAR_SCREEN);
        match self.stage {
            LoginStage::Failed => {
                output.append(LOGIN_ERROR_TITLE);
                if self.is_login {
                    output.append(LOGIN_FAILED);
                } else {
                    output.append(REGISTER_FAILED);
                }
            },
            LoginStage::Username => {
                output.append(LOGIN_TITLE);
                output.append(USERNAME_PROMPT);
                output.append(self.username.as_str());
            },
            LoginStage::Password => {
                output.append(LOGIN_TITLE);
                output.append(PASSWORD_PROMPT);
            },
            LoginStage::Choosing => {
                output.append(LOGIN_TITLE);
                push_option_line(&mut output, OPTION_LOGIN, self.selected_index == 0);
                push_option_line(&mut output, OPTION_REGISTER, self.selected_index == 1);
                output.append(LOGIN_HELP);
            },
        }
        output
    }

    /// The login screen shows no stored data.
    open spec fn refresh_requests(&self, after: &Self) -> Seq<Request> {
        Seq::empty()
    }

    fn refresh_data(&mut self, repo: &mut Manager)
        ensures
            final(self)@ == old(self)@,
            *final(repo) == *old(repo),
    {
    }

    fn handle_event(&mut self, event: Events, buffer_string: String, repo: &mut Manager) -> (result:
        Events)
        ensures
            !old(self)@.submits(event) ==> {
                &&& final(self)@ == old(self)@.next(event, buffer_string@)
                &&& result == old(self)@.outcome(event)
                &&& *final(repo) == *old(repo)
            },
            old(self)@.submits(event) ==> ({
                let answer = first_answer(*old(repo), *final(repo));
                &&& answer == -1 || answer > 0
                &&& issued(
                    *old(repo),
                    *final(repo),
                    old(self)@.typed(buffer_string@).submission(answer),
                )
                &&& result == if answer > 0 {
                    Events::Authenticate
                } else {
                    Events::InputModeDisable
                }
                &&& final(self)@ == old(self)@.typed(buffer_string@).settled(answer)
            }),
    {
        match self.stage {
            LoginStage::Failed => {
                if event == Events::Enter {
                    self.reset_view_state();
                }
                event
            },
            LoginStage::Choosing => {
                if event == Events::UpArrow {
                    self.move_up();
                    event
                } else if event == Events::DownArrow {
                    self.move_down();
                    event
                } else if event == Events::Enter {
                    self.handle_selection();
                    Events::InputModeEnable
                } else {
                    event
                }
            },
            LoginStage::Username => {
                self.username = buffer_string;
                if event == Events::Enter {
                    self.stage = LoginStage::Password;
                    Events::SecretInputModeEnable
                } else {
                    event
                }
            },
            LoginStage::Password => {
                self.password = buffer_string;
                if event == Events::Enter {
                    if self.validate_credentials(repo) {
                        Events::Authenticate
                    } else {
                        Events::InputModeDisable
                    }
                } else {
                    event
                }
            },
        }
    }
}

} // verus!
