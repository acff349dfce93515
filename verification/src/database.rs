//! The singleton store of the engine, modelled in memory: one companion
//! record, one user record, one configuration record, and the ordered
//! message log with store-assigned, strictly increasing ids.

use vstd::prelude::*;

use crate::card::CharacterCard;
use crate::card::spec_card_of;
use crate::card::spec_companion_after_import;
use crate::clock::get_current_date;
use crate::error::Error;
use crate::models::Companion;
use crate::models::CompanionModel;
use crate::models::CompanionView;
use crate::models::ConfigModel;
use crate::models::ConfigModify;
use crate::models::ConfigView;
use crate::models::Device;
use crate::models::Message;
use crate::models::MessageView;
use crate::models::NewMessage;
use crate::models::PromptTemplate;
use crate::models::User;
use crate::models::UserModel;
use crate::models::UserView;
use crate::models::parse_device;
use crate::models::parse_template;
use crate::text::spec_substituted;
use crate::text::substitute;

verus! {

/// The companion record every deployment starts with.
pub open spec fn default_companion_model() -> CompanionModel {
    CompanionModel {
        name: "Assistant"@,
        persona: "{{char}} is an artificial intelligence chatbot designed to help {{user}}. {{char}} is an artificial intelligence created in ai-companion backend"@,
        example_dialogue: "{{user}}: What is ai-companion?\n{{char}}: AI Companion is a open-source project, wrote in Rust, Typescript and React, that aims to provide users with their own personal AI chatbot on their computer. It allows users to engage in friendly and natural conversations with their AI, creating a unique and personalized experience. This software can also be used as a backend or API for other projects that require a personalised AI chatbot. Very light size, simple installation, simple configuration, quick cold start and ease of use are some of the strengths of AI Companion in comparison to other similar projects.\n{{user}}: Can you tell me about the creator of ai-companion?\n{{char}}: the creator of the ai-companion program is 'Hubert Kasperek', he is a young programmer from Poland who is mostly interested in web development and computer science concepts, he has account on GitHub under nickname \"Hukasx0\""@,
        first_message: "Hello {{user}}, how can i help you today?"@,
        long_term_mem: 2,
        short_term_mem: 5,
        roleplay: true,
        dialogue_tuning: true,
        avatar_path: "/assets/companion_avatar-4rust.jpg"@,
    }
}

/// The user record every deployment starts with.
pub open spec fn default_user_model() -> UserModel {
    UserModel {
        name: "User"@,
        persona: "{{user}} is chatting with {{char}} using ai-companion web user interface"@,
    }
}

/// The configuration every deployment starts with.
pub open spec fn default_config_model() -> ConfigModel {
    ConfigModel {
        device: Device::CPU,
        llm_model_path: "path/to/your/gguf/model.gguf"@,
        gpu_layers: 20,
        prompt_template: PromptTemplate::Default,
    }
}

/// The singleton store: exactly one companion, user and configuration
/// record, plus the ordered message log. Records are created at
/// construction and only ever replaced whole, never deleted.
pub struct Database {
    pub companion: Companion,
    pub user: User,
    pub config: ConfigView,
    pub messages: Vec<Message>,
    pub next_id: i32,
}

impl Database {
    /// The message log as a sequence of mathematical message values,
    /// oldest first.
    pub open spec fn log(&self) -> Seq<MessageView> {
        self.messages.deep_view()
    }

    /// Store invariant: message ids are strictly increasing along the log
    /// (so they are never reused), every id was assigned below `next_id`,
    /// and ids start at 1.
    pub open spec fn wf(&self) -> bool {
        &&& forall|i: int, j: int|
            0 <= i < j < self.log().len() ==> self.log()[i].id < self.log()[j].id
        &&& forall|i: int| 0 <= i < self.log().len() ==> #[trigger] self.log()[i].id < self.next_id
        &&& 1 <= self.next_id
    }

    /// The persona and configuration records are the same in both states.
    pub open spec fn same_records(a: Database, b: Database) -> bool {
        &&& a.companion@ == b.companion@
        &&& a.user@ == b.user@
        &&& a.config@ == b.config@
    }

    /// Bootstraps the store: default companion, user and configuration
    /// records, and a log seeded with one companion-authored greeting,
    /// the default first message with both placeholders substituted.
    pub fn new() -> (r: Database)
        ensures
            r.wf(),
            r.companion@ == default_companion_model(),
            r.user@ == default_user_model(),
            r.config@ == default_config_model(),
            r.log().len() == 1,
            r.log()[0].id == 1,
            r.log()[0].ai == true,
            r.log()[0].content == spec_substituted(
                default_companion_model().first_message,
                default_companion_model().name,
                default_user_model().name,
            ),
            r.next_id == 2,
    {
        let companion = Companion {
            id: 1,
            name: String::from_str("Assistant"),
            persona: String::from_str(
                "{{char}} is an artificial intelligence chatbot designed to help {{user}}. {{char}} is an artificial intelligence created in ai-companion backend",
            ),
            example_dialogue: String::from_str(
                "{{user}}: What is ai-companion?\n{{char}}: AI Companion is a open-source project, wrote in Rust, Typescript and React, that aims to provide users with their own personal AI chatbot on their computer. It allows users to engage in friendly and natural conversations with their AI, creating a unique and personalized experience. This software can also be used as a backend or API for other projects that require a personalised AI chatbot. Very light size, simple installation, simple configuration, quick cold start and ease of use are some of the strengths of AI Companion in comparison to other similar projects.\n{{user}}: Can you tell me about the creator of ai-companion?\n{{char}}: the creator of the ai-companion program is 'Hubert Kasperek', he is a young programmer from Poland who is mostly interested in web development and computer science concepts, he has account on GitHub under nickname \"Hukasx0\"",
            ),
            first_message: String::from_str("Hello {{user}}, how can i help you today?"),
            long_term_mem: 2,
            short_term_mem: 5,
            roleplay: true,
            dialogue_tuning: true,
            avatar_path: String::from_str("/assets/companion_avatar-4rust.jpg"),
        };
        let user = User {
            id: 1,
            name: String::from_str("User"),
            persona: String::from_str(
                "{{user}} is chatting with {{char}} using ai-companion web user interface",
            ),
        };
        let config = ConfigView {
            device: Device::CPU,
            llm_model_path: String::from_str("path/to/your/gguf/model.gguf"),
            gpu_layers: 20,
            prompt_template: PromptTemplate::Default,
        };
        let content = substitute(
            companion.first_message.as_str(),
            companion.name.as_str(),
            user.name.as_str(),
        );
        let greeting = Message { id: 1, ai: true, content, created_at: get_current_date() };
        let mut messages: Vec<Message> = Vec::new();
        messages.push(greeting);
        let r = Database { companion, user, config, messages, next_id: 2 };
        proof {
            assert(r.companion@ =~= default_companion_model());
            assert(r.user@ =~= default_user_model());
            assert(r.config@ =~= default_config_model());
        }
        r
    }

    /// One page of the log: the `x` most recent turns after skipping the
    /// `index` most recent ones, in chronological (oldest-first) order.
    /// A page that reaches past either end is clipped, never an error.
    pub open spec fn spec_page(ms: Seq<MessageView>, x: int, index: int) -> Seq<MessageView> {
        let end = if index <= ms.len() {
            ms.len() - index
        } else {
            0
        };
        let start = if x <= end {
            end - x
        } else {
            0
        };
        ms.subrange(start, end)
    }

    /// Paginated read of the log: the `x` most recent turns after
    /// skipping the `index` most recent, returned oldest first.
    pub fn get_x_messages(&self, x: usize, index: usize) -> (r: Vec<Message>)
        ensures
            r.deep_view() == Self::spec_page(self.log(), x as int, index as int),
    {
        let l: usize = self.messages.len();
        let end: usize = if index <= l {
            l - index
        } else {
            0
        };
        let start: usize = if x <= end {
            end - x
        } else {
            0
        };
        let mut r: Vec<Message> = Vec::new();
        let mut k: usize = start;
        while k < end
            invariant
                start <= k <= end <= self.messages@.len(),
                r@.len() == k - start,
                forall|i: int| 0 <= i < r@.len() ==> #[trigger] r@[i]@ == self.log()[start + i],
            decreases end - k,
        {
            r.push(self.messages[k].duplicate());
            k += 1;
        }
        proof {
            assert forall|i: int| 0 <= i < r@.len() implies r.deep_view()[i] == Self::spec_page(
                self.log(),
                x as int,
                index as int,
            )[i] by {
                assert(r@[i]@ == self.log()[start + i]);
            }
            assert(r.deep_view() =~= Self::spec_page(self.log(), x as int, index as int));
        }
        r
    }

    /// Reads the latest (highest-id) turn; `NotFound` exactly when the
    /// log is empty.
    pub fn get_latest_message(&self) -> (r: Result<Message, Error>)
        ensures
            (r is Ok) == (self.log().len() > 0),
            r is Ok ==> r->Ok_0@ == self.log().last(),
            r is Err ==> r->Err_0 == Error::NotFound,
    {
        let l: usize = self.messages.len();
        if l == 0 {
            Err(Error::NotFound)
        } else {
            Ok(self.messages[l - 1].duplicate())
        }
    }

    /// Reads the turn with the given id; `NotFound` exactly when no turn
    /// carries it.
    pub fn get_message(&self, id: i32) -> (r: Result<Message, Error>)
        ensures
            (r is Ok) == (exists|i: int|
                0 <= i < self.log().len() && #[trigger] self.log()[i].id == id),
            r is Ok ==> r->Ok_0@.id == id && self.log().contains(r->Ok_0@),
            r is Err ==> r->Err_0 == Error::NotFound,
    {
        let l: usize = self.messages.len();
        let mut k: usize = 0;
        while k < l
            invariant
                k <= l == self.log().len(),
                forall|i: int| 0 <= i < k ==> #[trigger] self.log()[i].id != id,
            decreases l - k,
        {
            if self.messages[k].id == id {
                proof {
                    assert(self.log()[k as int].id == id);
                    assert(self.log().contains(self.log()[k as int]));
                }
                return Ok(self.messages[k].duplicate());
            }
            k += 1;
        }
        Err(Error::NotFound)
    }

    /// Appends a turn: the store assigns the next id and a freshly read
    /// timestamp, and returns the stored record. `StoreUnavailable`
    /// exactly when the id space is exhausted; nothing changes then.
    pub fn insert_message(&mut self, message: NewMessage) -> (r: Result<Message, Error>)
        requires
            old(self).wf(),
        ensures
            final(self).wf(),
            Self::same_records(*final(self), *old(self)),
            (r is Ok) == (old(self).next_id < i32::MAX),
            r is Err ==> r->Err_0 == Error::StoreUnavailable && final(self).log() == old(
                self,
            ).log() && final(self).next_id == old(self).next_id,
            r is Ok ==> {
                &&& final(self).log() == old(self).log().push(r->Ok_0@)
                &&& r->Ok_0@.id == old(self).next_id
                &&& r->Ok_0@.ai == message.ai
                &&& r->Ok_0@.content == message.content@
                &&& final(self).next_id == old(self).next_id + 1
            },
    {
        if self.next_id == i32::MAX {
            return Err(Error::StoreUnavailable);
        }
        let stored = Message {
            id: self.next_id,
            ai: message.ai,
            content: message.content,
            created_at: get_current_date(),
        };
        let r = stored.duplicate();
        self.messages.push(stored);
        self.next_id = self.next_id + 1;
        proof {
            assert(self.log() =~= old(self).log().push(r@));
            let n = self.log().len();
            assert forall|i: int, j: int| 0 <= i < j < n implies self.log()[i].id
                < self.log()[j].id by {
                if j == n - 1 {
                    assert(old(self).log()[i].id < old(self).next_id);
                }
            }
            assert forall|i: int| 0 <= i < n implies #[trigger] self.log()[i].id
                < self.next_id by {
                if i < n - 1 {
                    assert(old(self).log()[i].id < old(self).next_id);
                }
            }
        }
        Ok(r)
    }

    /// Writes a turn over the one with the given id, keeping its id and
    /// timestamp; `NotFound` exactly when no turn carries the id, and the
    /// log is unchanged then.
    pub fn edit_message(&mut self, id: i32, message: NewMessage) -> (r: Result<(), Error>)
        requires
            old(self).wf(),
        ensures
            final(self).wf(),
            Self::same_records(*final(self), *old(self)),
            final(self).next_id == old(self).next_id,
            (r is Ok) == (exists|i: int|
                0 <= i < old(self).log().len() && #[trigger] old(self).log()[i].id == id),
            r is Err ==> r->Err_0 == Error::NotFound && final(self).log() == old(self).log(),
            r is Ok ==> exists|i: int|
                {
                    &&& 0 <= i < old(self).log().len()
                    &&& #[trigger] old(self).log()[i].id == id
                    &&& final(self).log() == old(self).log().update(
                        i,
                        MessageView {
                            id: id as int,
                            ai: message.ai,
                            content: message.content@,
                            created_at: old(self).log()[i].created_at,
                        },
                    )
                },
    {
        let l: usize = self.messages.len();
        let mut k: usize = 0;
        while k < l
            invariant
                *self == *old(self),
                old(self).wf(),
                k <= l == self.log().len(),
                forall|i: int| 0 <= i < k ==> #[trigger] self.log()[i].id != id,
            decreases l - k,
        {
            if self.messages[k].id == id {
                proof {
                    assert(self.log()[k as int].id == id);
                }
                let created_at = self.messages[k].created_at.clone();
                self.messages.set(
                    k,
                    Message { id, ai: message.ai, content: message.content, created_at },
                );
                proof {
                    let m = MessageView {
                        id: id as int,
                        ai: message.ai,
                        content: message.content@,
                        created_at: old(self).log()[k as int].created_at,
                    };
                    assert(self.log() =~= old(self).log().update(k as int, m));
                    assert forall|i: int| 0 <= i < self.log().len() implies #[trigger] self.log()[i].id
                        == old(self).log()[i].id by {}
                    assert(self.wf());
                }
                return Ok(());
            }
            k += 1;
        }
        Err(Error::NotFound)
    }

    /// Deletes the turn with the given id; `NotFound` exactly when no
    /// turn carries it, and the log is unchanged then.
    pub fn delete_message(&mut self, id: i32) -> (r: Result<(), Error>)
        requires
            old(self).wf(),
        ensures
            final(self).wf(),
            Self::same_records(*final(self), *old(self)),
            final(self).next_id == old(self).next_id,
            (r is Ok) == (exists|i: int|
                0 <= i < old(self).log().len() && #[trigger] old(self).log()[i].id == id),
            r is Err ==> r->Err_0 == Error::NotFound && final(self).log() == old(self).log(),
            r is Ok ==> exists|i: int|
                {
                    &&& 0 <= i < old(self).log().len()
                    &&& #[trigger] old(self).log()[i].id == id
                    &&& final(self).log() == old(self).log().remove(i)
                },
    {
        let l: usize = self.messages.len();
        let mut k: usize = 0;
        while k < l
            invariant
                *self == *old(self),
                old(self).wf(),
                k <= l == self.log().len(),
                forall|i: int| 0 <= i < k ==> #[trigger] self.log()[i].id != id,
            decreases l - k,
        {
            if self.messages[k].id == id {
                proof {
                    assert(self.log()[k as int].id == id);
                }
                self.messages.remove(k);
                proof {
                    assert(self.log() =~= old(self).log().remove(k as int));
                    let n = self.log().len();
                    assert forall|i: int, j: int| 0 <= i < j < n implies self.log()[i].id
                        < self.log()[j].id by {
                        let oi = if i < k { i } else { i + 1 };
                        let oj = if j < k { j } else { j + 1 };
                        assert(self.log()[i] == old(self).log()[oi]);
                        assert(self.log()[j] == old(self).log()[oj]);
                        assert(old(self).log()[oi].id < old(self).log()[oj].id);
                    }
                    assert forall|i: int| 0 <= i < n implies #[trigger] self.log()[i].id
                        < self.next_id by {
                        let oi = if i < k { i } else { i + 1 };
                        assert(self.log()[i] == old(self).log()[oi]);
                        assert(old(self).log()[oi].id < old(self).next_id);
                    }
                }
                return Ok(());
            }
            k += 1;
        }
        Err(Error::NotFound)
    }

    /// Deletes the latest turn; `NotFound` exactly when the log is empty.
    pub fn delete_latest_message(&mut self) -> (r: Result<(), Error>)
        requires
            old(self).wf(),
        ensures
            final(self).wf(),
            Self::same_records(*final(self), *old(self)),
            final(self).next_id == old(self).next_id,
            (r is Ok) == (old(self).log().len() > 0),
            r is Err ==> r->Err_0 == Error::NotFound && final(self).log() == old(self).log(),
            r is Ok ==> final(self).log() == old(self).log().drop_last(),
    {
        if self.messages.len() == 0 {
            return Err(Error::NotFound);
        }
        self.messages.pop();
        proof {
            assert(self.log() =~= old(self).log().drop_last());
            assert forall|i: int| 0 <= i < self.log().len() implies #[trigger] self.log()[i] == old(
                self,
            ).log()[i] by {}
        }
        Ok(())
    }

    /// Clears the log and reseeds it with exactly one companion-authored
    /// greeting: the companion's first message with both placeholders
    /// substituted. The greeting gets a fresh id; `StoreUnavailable`
    /// exactly when the id space is exhausted, and nothing changes then.
    pub fn erase_messages(&mut self) -> (r: Result<(), Error>)
        requires
            old(self).wf(),
        ensures
            final(self).wf(),
            Self::same_records(*final(self), *old(self)),
            (r is Ok) == (old(self).next_id < i32::MAX),
            r is Err ==> r->Err_0 == Error::StoreUnavailable && final(self).log() == old(
                self,
            ).log() && final(self).next_id == old(self).next_id,
            r is Ok ==> {
                &&& final(self).log().len() == 1
                &&& final(self).log()[0].id == old(self).next_id
                &&& final(self).log()[0].ai == true
                &&& final(self).log()[0].content == spec_substituted(
                    old(self).companion@.first_message,
                    old(self).companion@.name,
                    old(self).user@.name,
                )
                &&& final(self).next_id == old(self).next_id + 1
            },
    {
        if self.next_id == i32::MAX {
            return Err(Error::StoreUnavailable);
        }
        let content = substitute(
            self.companion.first_message.as_str(),
            self.companion.name.as_str(),
            self.user.name.as_str(),
        );
        let greeting = Message {
            id: self.next_id,
            ai: true,
            content,
            created_at: get_current_date(),
        };
        self.messages.clear();
        self.messages.push(greeting);
        self.next_id = self.next_id + 1;
        proof {
            assert(self.log().len() == 1);
            assert(self.log()[0].id == old(self).next_id);
        }
        Ok(())
    }

    /// Reads the companion record.
    pub fn get_companion_data(&self) -> (r: CompanionView)
        ensures
            r@ == self.companion@,
    {
        CompanionView {
            name: self.companion.name.clone(),
            persona: self.companion.persona.clone(),
            example_dialogue: self.companion.example_dialogue.clone(),
            first_message: self.companion.first_message.clone(),
            long_term_mem: self.companion.long_term_mem,
            short_term_mem: self.companion.short_term_mem,
            roleplay: self.companion.roleplay,
            dialogue_tuning: self.companion.dialogue_tuning,
            avatar_path: self.companion.avatar_path.clone(),
        }
    }

    /// Exports the companion record as a portable character card.
    pub fn get_companion_card_data(&self) -> (r: CharacterCard)
        ensures
            r@ == spec_card_of(self.companion@),
    {
        CharacterCard {
            name: self.companion.name.clone(),
            description: self.companion.persona.clone(),
            first_mes: self.companion.first_message.clone(),
            mes_example: self.companion.example_dialogue.clone(),
        }
    }

    /// Reads the user record.
    pub fn get_user_data(&self) -> (r: UserView)
        ensures
            r@ == self.user@,
    {
        UserView { name: self.user.name.clone(), persona: self.user.persona.clone() }
    }

    /// Reads the configuration record.
    pub fn get_config(&self) -> (r: ConfigView)
        ensures
            r@ == self.config@,
    {
        ConfigView {
            device: self.config.device,
            llm_model_path: self.config.llm_model_path.clone(),
            gpu_layers: self.config.gpu_layers,
            prompt_template: self.config.prompt_template,
        }
    }

    /// Replaces the companion record whole; the log and every other
    /// record stay as they are.
    pub fn edit_companion(&mut self, companion: CompanionView)
        requires
            old(self).wf(),
        ensures
            final(self).wf(),
            final(self).companion@ == companion@,
            final(self).user@ == old(self).user@,
            final(self).config@ == old(self).config@,
            final(self).log() == old(self).log(),
            final(self).next_id == old(self).next_id,
    {
        let id = self.companion.id;
        self.companion = Companion {
            id,
            name: companion.name,
            persona: companion.persona,
            example_dialogue: companion.example_dialogue,
            first_message: companion.first_message,
            long_term_mem: companion.long_term_mem,
            short_term_mem: companion.short_term_mem,
            roleplay: companion.roleplay,
            dialogue_tuning: companion.dialogue_tuning,
            avatar_path: companion.avatar_path,
        };
        proof {
            assert(self.messages == old(self).messages);
            assert(self.log() =~= old(self).log());
            assert(self.companion@ =~= companion@);
        }
    }

    /// Imports a character card: the persona-shaping companion fields are
    /// replaced, while the avatar, the memory budgets, the mode flags and
    /// every other record stay as they are.
    pub fn import_character_json(&mut self, companion: CharacterCard)
        requires
            old(self).wf(),
        ensures
            final(self).wf(),
            final(self).companion@ == spec_companion_after_import(
                old(self).companion@,
                companion@,
            ),
            final(self).user@ == old(self).user@,
            final(self).config@ == old(self).config@,
            final(self).log() == old(self).log(),
            final(self).next_id == old(self).next_id,
    {
        let id = self.companion.id;
        self.companion = Companion {
            id,
            name: companion.name,
            persona: companion.description,
            example_dialogue: companion.mes_example,
            first_message: companion.first_mes,
            long_term_mem: self.companion.long_term_mem,
            short_term_mem: self.companion.short_term_mem,
            roleplay: self.companion.roleplay,
            dialogue_tuning: self.companion.dialogue_tuning,
            avatar_path: self.companion.avatar_path.clone(),
        };
        proof {
            assert(self.messages == old(self).messages);
            assert(self.log() =~= old(self).log());
            assert(self.companion@ =~= spec_companion_after_import(
                old(self).companion@,
                companion@,
            ));
        }
    }

    /// Imports a character card together with its bundled avatar image:
    /// as `import_character_json`, and the avatar path is replaced too.
    pub fn import_character_card(&mut self, companion: CharacterCard, image_path: &str)
        requires
            old(self).wf(),
        ensures
            final(self).wf(),
            final(self).companion@ == (CompanionModel {
                avatar_path: image_path@,
                ..spec_companion_after_import(old(self).companion@, companion@)
            }),
            final(self).user@ == old(self).user@,
            final(self).config@ == old(self).config@,
            final(self).log() == old(self).log(),
            final(self).next_id == old(self).next_id,
    {
        let id = self.companion.id;
        self.companion = Companion {
            id,
            name: companion.name,
            persona: companion.description,
            example_dialogue: companion.mes_example,
            first_message: companion.first_mes,
            long_term_mem: self.companion.long_term_mem,
            short_term_mem: self.companion.short_term_mem,
            roleplay: self.companion.roleplay,
            dialogue_tuning: self.companion.dialogue_tuning,
            avatar_path: String::from_str(image_path),
        };
        proof {
            assert(self.messages == old(self).messages);
            assert(self.log() =~= old(self).log());
            assert(self.companion@ =~= (CompanionModel {
                avatar_path: image_path@,
                ..spec_companion_after_import(old(self).companion@, companion@)
            }));
        }
    }

    /// Replaces only the companion's avatar path.
    pub fn change_companion_avatar(&mut self, avatar_path: &str)
        requires
            old(self).wf(),
        ensures
            final(self).wf(),
            final(self).companion@ == (CompanionModel {
                avatar_path: avatar_path@,
                ..old(self).companion@
            }),
            final(self).user@ == old(self).user@,
            final(self).config@ == old(self).config@,
            final(self).log() == old(self).log(),
            final(self).next_id == old(self).next_id,
    {
        self.companion.avatar_path = String::from_str(avatar_path);
        proof {
            assert(self.messages == old(self).messages);
            assert(self.log() =~= old(self).log());
            assert(self.companion@ =~= (CompanionModel {
                avatar_path: avatar_path@,
                ..old(self).companion@
            }));
        }
    }

    /// Replaces the user record whole; every other record stays as it is.
    pub fn edit_user(&mut self, user: UserView)
        requires
            old(self).wf(),
        ensures
            final(self).wf(),
            final(self).user@ == user@,
            final(self).companion@ == old(self).companion@,
            final(self).config@ == old(self).config@,
            final(self).log() == old(self).log(),
            final(self).next_id == old(self).next_id,
    {
        let id = self.user.id;
        self.user = User { id, name: user.name, persona: user.persona };
        proof {
            assert(self.messages == old(self).messages);
            assert(self.log() =~= old(self).log());
            assert(self.user@ =~= user@);
        }
    }

    /// Applies a requested configuration change. The device and template
    /// tokens are validated first: on any unrecognized token the request
    /// is rejected with `ConfigInvalid` before anything is persisted, and
    /// the prior configuration stays in force.
    pub fn change_config(&mut self, config: ConfigModify) -> (r: Result<(), Error>)
        requires
            old(self).wf(),
        ensures
            final(self).wf(),
            final(self).companion@ == old(self).companion@,
            final(self).user@ == old(self).user@,
            final(self).log() == old(self).log(),
            final(self).next_id == old(self).next_id,
            (r is Ok) == (crate::models::spec_parse_device(config.device@) is Ok
                && crate::models::spec_parse_template(config.prompt_template@) is Ok),
            r is Err ==> r->Err_0 == Error::ConfigInvalid && final(self).config@ == old(
                self,
            ).config@,
            r is Ok ==> final(self).config@ == (ConfigModel {
                device: crate::models::spec_parse_device(config.device@)->Ok_0,
                llm_model_path: config.llm_model_path@,
                gpu_layers: config.gpu_layers as int,
                prompt_template: crate::models::spec_parse_template(config.prompt_template@)->Ok_0,
            }),
    {
        let device = match parse_device(config.device.as_str()) {
            Ok(d) => d,
            Err(e) => {
                return Err(e);
            },
        };
        let prompt_template = match parse_template(config.prompt_template.as_str()) {
            Ok(t) => t,
            Err(e) => {
                return Err(e);
            },
        };
        self.config = ConfigView {
            device,
            llm_model_path: config.llm_model_path,
            gpu_layers: config.gpu_layers,
            prompt_template,
        };
        proof {
            assert(self.messages == old(self).messages);
            assert(self.log() =~= old(self).log());
            assert(self.config@ =~= (ConfigModel {
                device: crate::models::spec_parse_device(config.device@)->Ok_0,
                llm_model_path: config.llm_model_path@,
                gpu_layers: config.gpu_layers as int,
                prompt_template: crate::models::spec_parse_template(config.prompt_template@)->Ok_0,
            }));
        }
        Ok(())
    }
}

/// Ordering law of the log: under the store invariant, an earlier turn
/// always carries a strictly smaller id. In particular, appending a user
/// turn and then a companion turn always yields the user turn's id below
/// the companion turn's id.
pub proof fn lemma_log_ids_ordered(db: Database, i: int, j: int)
    requires
        db.wf(),
        0 <= i < j < db.log().len(),
    ensures
        db.log()[i].id < db.log()[j].id,
{
}

} // verus!
