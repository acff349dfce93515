//! The persisted records of the engine: messages, companion, user and
//! configuration, together with the closed device / prompt-template
//! vocabularies and their total parse functions.

use vstd::prelude::*;

use crate::error::Error;

verus! {

/// One turn of the conversation log. `ai` is true for a companion turn.
/// `content` holds rendered text: placeholders are substituted at write
/// time, never on read. `created_at` is a human-readable local timestamp.
#[derive(Debug)]
pub struct Message {
    pub id: i32,
    pub ai: bool,
    pub content: String,
    pub created_at: String,
}

/// The mathematical value of a `Message`.
#[verifier::ext_equal]
pub ghost struct MessageView {
    pub id: int,
    pub ai: bool,
    pub content: Seq<char>,
    pub created_at: Seq<char>,
}

impl View for Message {
    type V = MessageView;

    open spec fn view(&self) -> MessageView {
        MessageView {
            id: self.id as int,
            ai: self.ai,
            content: self.content@,
            created_at: self.created_at@,
        }
    }
}

impl DeepView for Message {
    type V = MessageView;

    open spec fn deep_view(&self) -> MessageView {
        self.view()
    }
}

impl Message {
    /// A field-for-field copy of the message.
    pub fn duplicate(&self) -> (r: Message)
        ensures
            r@ == self@,
    {
        Message {
            id: self.id,
            ai: self.ai,
            content: self.content.clone(),
            created_at: self.created_at.clone(),
        }
    }
}

/// A turn to be appended or written over an existing one: the store itself
/// assigns id and timestamp.
pub struct NewMessage {
    pub ai: bool,
    pub content: String,
}

/// The persisted companion persona. Exactly one record is canonical;
/// it is created with defaults and then only replaced, never deleted.
pub struct Companion {
    pub id: i32,
    pub name: String,
    pub persona: String,
    pub example_dialogue: String,
    pub first_message: String,
    pub long_term_mem: usize,
    pub short_term_mem: usize,
    pub roleplay: bool,
    pub dialogue_tuning: bool,
    pub avatar_path: String,
}

/// The companion record as read and written by callers: every field but
/// the store-assigned id.
pub struct CompanionView {
    pub name: String,
    pub persona: String,
    pub example_dialogue: String,
    pub first_message: String,
    pub long_term_mem: usize,
    pub short_term_mem: usize,
    pub roleplay: bool,
    pub dialogue_tuning: bool,
    pub avatar_path: String,
}

/// The mathematical value of the companion record: its caller-visible
/// fields (the store-assigned id is fixed by construction).
#[verifier::ext_equal]
pub ghost struct CompanionModel {
    pub name: Seq<char>,
    pub persona: Seq<char>,
    pub example_dialogue: Seq<char>,
    pub first_message: Seq<char>,
    pub long_term_mem: int,
    pub short_term_mem: int,
    pub roleplay: bool,
    pub dialogue_tuning: bool,
    pub avatar_path: Seq<char>,
}

impl View for Companion {
    type V = CompanionModel;

    open spec fn view(&self) -> CompanionModel {
        CompanionModel {
            name: self.name@,
            persona: self.persona@,
            example_dialogue: self.example_dialogue@,
            first_message: self.first_message@,
            long_term_mem: self.long_term_mem as int,
            short_term_mem: self.short_term_mem as int,
            roleplay: self.roleplay,
            dialogue_tuning: self.dialogue_tuning,
            avatar_path: self.avatar_path@,
        }
    }
}

impl View for CompanionView {
    type V = CompanionModel;

    open spec fn view(&self) -> CompanionModel {
        CompanionModel {
            name: self.name@,
            persona: self.persona@,
            example_dialogue: self.example_dialogue@,
            first_message: self.first_message@,
            long_term_mem: self.long_term_mem as int,
            short_term_mem: self.short_term_mem as int,
            roleplay: self.roleplay,
            dialogue_tuning: self.dialogue_tuning,
            avatar_path: self.avatar_path@,
        }
    }
}

/// The persisted user profile. Exactly one record is canonical.
pub struct User {
    pub id: i32,
    pub name: String,
    pub persona: String,
}

/// The user record as read and written by callers.
pub struct UserView {
    pub name: String,
    pub persona: String,
}

/// The mathematical value of the user record: its caller-visible fields.
#[verifier::ext_equal]
pub ghost struct UserModel {
    pub name: Seq<char>,
    pub persona: Seq<char>,
}

impl View for User {
    type V = UserModel;

    open spec fn view(&self) -> UserModel {
        UserModel { name: self.name@, persona: self.persona@ }
    }
}

impl View for UserView {
    type V = UserModel;

    open spec fn view(&self) -> UserModel {
        UserModel { name: self.name@, persona: self.persona@ }
    }
}

/// The closed set of compute devices the inference backend can be told
/// to use.
#[derive(Clone, Copy, Debug, PartialEq, Eq, Structural)]
pub enum Device {
    CPU,
    GPU,
    Metal,
}

/// The closed set of model-family prompt grammars.
#[derive(Clone, Copy, Debug, PartialEq, Eq, Structural)]
pub enum PromptTemplate {
    Default,
    Llama2,
    Mistral,
}

/// Total parse of a device token: the three recognized spellings, and
/// `ConfigInvalid` for every other text.
pub open spec fn spec_parse_device(s: Seq<char>) -> Result<Device, Error> {
    if s == "CPU"@ {
        Ok(Device::CPU)
    } else if s == "GPU"@ {
        Ok(Device::GPU)
    } else if s == "Metal"@ {
        Ok(Device::Metal)
    } else {
        Err(Error::ConfigInvalid)
    }
}

/// Parses a device token; fails on any unrecognized spelling rather than
/// defaulting silently.
pub fn parse_device(s: &str) -> (r: Result<Device, Error>)
    ensures
        r == spec_parse_device(s@),
{
    if crate::text::str_eq(s, "CPU") {
        Ok(Device::CPU)
    } else if crate::text::str_eq(s, "GPU") {
        Ok(Device::GPU)
    } else if crate::text::str_eq(s, "Metal") {
        Ok(Device::Metal)
    } else {
        Err(Error::ConfigInvalid)
    }
}

/// The canonical spelling of a device.
pub open spec fn spec_device_text(d: Device) -> Seq<char> {
    match d {
        Device::CPU => "CPU"@,
        Device::GPU => "GPU"@,
        Device::Metal => "Metal"@,
    }
}

/// Writes a device back as its canonical token.
pub fn device_text(d: &Device) -> (r: &'static str)
    ensures
        r@ == spec_device_text(*d),
{
    match d {
        Device::CPU => "CPU",
        Device::GPU => "GPU",
        Device::Metal => "Metal",
    }
}

/// Total parse of a prompt-template token: the three recognized
/// spellings, and `ConfigInvalid` for every other text.
pub open spec fn spec_parse_template(s: Seq<char>) -> Result<PromptTemplate, Error> {
    if s == "Default"@ {
        Ok(PromptTemplate::Default)
    } else if s == "Llama2"@ {
        Ok(PromptTemplate::Llama2)
    } else if s == "Mistral"@ {
        Ok(PromptTemplate::Mistral)
    } else {
        Err(Error::ConfigInvalid)
    }
}

/// Parses a prompt-template token; fails on any unrecognized spelling
/// rather than defaulting silently.
pub fn parse_template(s: &str) -> (r: Result<PromptTemplate, Error>)
    ensures
        r == spec_parse_template(s@),
{
    if crate::text::str_eq(s, "Default") {
        Ok(PromptTemplate::Default)
    } else if crate::text::str_eq(s, "Llama2") {
        Ok(PromptTemplate::Llama2)
    } else if crate::text::str_eq(s, "Mistral") {
        Ok(PromptTemplate::Mistral)
    } else {
        Err(Error::ConfigInvalid)
    }
}

/// The canonical spelling of a prompt template.
pub open spec fn spec_template_text(t: PromptTemplate) -> Seq<char> {
    match t {
        PromptTemplate::Default => "Default"@,
        PromptTemplate::Llama2 => "Llama2"@,
        PromptTemplate::Mistral => "Mistral"@,
    }
}

/// Writes a prompt template back as its canonical token.
pub fn template_text(t: &PromptTemplate) -> (r: &'static str)
    ensures
        r@ == spec_template_text(*t),
{
    match t {
        PromptTemplate::Default => "Default",
        PromptTemplate::Llama2 => "Llama2",
        PromptTemplate::Mistral => "Mistral",
    }
}

/// The active configuration: validated device and template variants, the
/// model path, and how many layers are offloaded to the GPU.
pub struct ConfigView {
    pub device: Device,
    pub llm_model_path: String,
    pub gpu_layers: usize,
    pub prompt_template: PromptTemplate,
}

/// The mathematical value of the configuration record.
#[verifier::ext_equal]
pub ghost struct ConfigModel {
    pub device: Device,
    pub llm_model_path: Seq<char>,
    pub gpu_layers: int,
    pub prompt_template: PromptTemplate,
}

impl View for ConfigView {
    type V = ConfigModel;

    open spec fn view(&self) -> ConfigModel {
        ConfigModel {
            device: self.device,
            llm_model_path: self.llm_model_path@,
            gpu_layers: self.gpu_layers as int,
            prompt_template: self.prompt_template,
        }
    }
}

/// A requested configuration change, with device and template still as
/// unvalidated text tokens.
pub struct ConfigModify {
    pub device: String,
    pub llm_model_path: String,
    pub gpu_layers: usize,
    pub prompt_template: String,
}

} // verus!
