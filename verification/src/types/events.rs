use crate::decimal::{decimal, lemma_parse_print, parse_u64, parsed_u64, print_u64};
use crate::decode::{optional, read, read_list, read_optional, required, required_list, Decode};
use crate::json::{lemma_member_decreases, same_text, sound, Json, JsonModel, NumberModel};
use vstd::prelude::*;
use vstd::std_specs::convert::FromSpecImpl;

verus! {

/// The 64-bit identifier of a guild, a channel, a message or a user. On the
/// wire it is a string of decimal digits.
#[derive(Debug, Copy, Clone, PartialEq, Eq, Structural, Hash)]
pub struct SnowflakeID {
    pub id: u64,
}

impl DeepView for SnowflakeID {
    type V = SnowflakeID;

    open spec fn deep_view(&self) -> SnowflakeID {
        *self
    }
}

impl Decode for SnowflakeID {
    /// The identifier that a document stands for: a string that writes a
    /// `u64` in decimal.
    open spec fn decoded(doc: JsonModel) -> Option<SnowflakeID> {
        match doc.as_text() {
            Some(text) => match parsed_u64(text) {
                Some(id) => Some(SnowflakeID { id }),
                None => None,
            },
            None => None,
        }
    }

    fn from_json(doc: &Json) -> (r: Option<SnowflakeID>) {
        match doc.as_str() {
            Some(text) => match parse_u64(text) {
                Some(id) => Some(SnowflakeID { id }),
                None => None,
            },
            None => None,
        }
    }
}

impl SnowflakeID {
    /// The document that stands for the identifier.
    pub open spec fn encoded(self) -> JsonModel {
        JsonModel::Text(decimal(self.id as nat))
    }

    /// Writes the identifier as a document: a string.
    pub fn to_json(&self) -> (r: Json)
        ensures
            r@ == self.encoded(),
            sound(r, 0),
    {
        Json::Text(print_u64(self.id))
    }

    /// The identifier in decimal.
    pub fn to_string(&self) -> (r: String)
        ensures
            r@ == decimal(self.id as nat),
    {
        print_u64(self.id)
    }

    /// The identifier that a text writes in decimal, or zero where it writes
    /// none.
    pub open spec fn of_text(text: Seq<char>) -> SnowflakeID {
        match parsed_u64(text) {
            Some(id) => SnowflakeID { id },
            None => SnowflakeID { id: 0 },
        }
    }
}

impl From<u64> for SnowflakeID {
    fn from(id: u64) -> (r: Self) {
        SnowflakeID { id }
    }
}

impl FromSpecImpl<u64> for SnowflakeID {
    open spec fn obeys_from_spec() -> bool {
        true
    }

    open spec fn from_spec(id: u64) -> Self {
        SnowflakeID { id }
    }
}

impl From<&str> for SnowflakeID {
    fn from(id: &str) -> (r: Self) {
        match parse_u64(id) {
            Some(id) => SnowflakeID { id },
            None => SnowflakeID { id: 0 },
        }
    }
}

impl FromSpecImpl<&str> for SnowflakeID {
    open spec fn obeys_from_spec() -> bool {
        true
    }

    open spec fn from_spec(id: &str) -> Self {
        SnowflakeID::of_text(id@)
    }
}

/// An identifier written as a document and read back is the same identifier.
pub proof fn lemma_snowflake_round_trip(id: SnowflakeID)
    ensures
        SnowflakeID::decoded(id.encoded()) == Some(id),
{
    lemma_parse_print(id.id);
}

/// The kind of a channel.
#[derive(Debug, Copy, Clone, PartialEq, Eq, Structural)]
pub enum ChannelType {
    GuildText,
    DM,
    GuildVoice,
    GroupDm,
    GuildCategory,
    GuildNews,
    GuildStore,
    GuildNewsThread,
    GuildPublicThread,
    GuildPrivateThread,
    GuildStageVoice,
}

impl ChannelType {
    /// The number that stands for the kind on the wire.
    pub open spec fn spec_code(self) -> u8 {
        match self {
            ChannelType::GuildText => 0,
            ChannelType::DM => 1,
            ChannelType::GuildVoice => 2,
            ChannelType::GroupDm => 3,
            ChannelType::GuildCategory => 4,
            ChannelType::GuildNews => 5,
            ChannelType::GuildStore => 6,
            ChannelType::GuildNewsThread => 10,
            ChannelType::GuildPublicThread => 11,
            ChannelType::GuildPrivateThread => 12,
            ChannelType::GuildStageVoice => 13,
        }
    }

    /// The kind that a number stands for, if it stands for one.
    pub open spec fn spec_from_code(code: u64) -> Option<ChannelType> {
        if code == 0 {
            Some(ChannelType::GuildText)
        } else if code == 1 {
            Some(ChannelType::DM)
        } else if code == 2 {
            Some(ChannelType::GuildVoice)
        } else if code == 3 {
            Some(ChannelType::GroupDm)
        } else if code == 4 {
            Some(ChannelType::GuildCategory)
        } else if code == 5 {
            Some(ChannelType::GuildNews)
        } else if code == 6 {
            Some(ChannelType::GuildStore)
        } else if code == 10 {
            Some(ChannelType::GuildNewsThread)
        } else if code == 11 {
            Some(ChannelType::GuildPublicThread)
        } else if code == 12 {
            Some(ChannelType::GuildPrivateThread)
        } else if code == 13 {
            Some(ChannelType::GuildStageVoice)
        } else {
            None
        }
    }

    /// The number that stands for the kind on the wire.
    #[verifier::when_used_as_spec(spec_code)]
    pub fn code(self) -> (r: u8)
        ensures
            r == self.spec_code(),
    {
        match self {
            ChannelType::GuildText => 0,
            ChannelType::DM => 1,
            ChannelType::GuildVoice => 2,
            ChannelType::GroupDm => 3,
            ChannelType::GuildCategory => 4,
            ChannelType::GuildNews => 5,
            ChannelType::GuildStore => 6,
            ChannelType::GuildNewsThread => 10,
            ChannelType::GuildPublicThread => 11,
            ChannelType::GuildPrivateThread => 12,
            ChannelType::GuildStageVoice => 13,
        }
    }

    /// The kind that a number stands for.
    ///
    /// Returns `None` exactly where no kind has that number.
    #[verifier::when_used_as_spec(spec_from_code)]
    pub fn from_code(code: u64) -> (r: Option<ChannelType>)
        ensures
            r == Self::spec_from_code(code),
    {
        if code == 0 {
            Some(ChannelType::GuildText)
        } else if code == 1 {
            Some(ChannelType::DM)
        } else if code == 2 {
            Some(ChannelType::GuildVoice)
        } else if code == 3 {
            Some(ChannelType::GroupDm)
        } else if code == 4 {
            Some(ChannelType::GuildCategory)
        } else if code == 5 {
            Some(ChannelType::GuildNews)
        } else if code == 6 {
            Some(ChannelType::GuildStore)
        } else if code == 10 {
            Some(ChannelType::GuildNewsThread)
        } else if code == 11 {
            Some(ChannelType::GuildPublicThread)
        } else if code == 12 {
            Some(ChannelType::GuildPrivateThread)
        } else if code == 13 {
            Some(ChannelType::GuildStageVoice)
        } else {
            None
        }
    }
}

impl DeepView for ChannelType {
    type V = ChannelType;

    open spec fn deep_view(&self) -> ChannelType {
        *self
    }
}

impl Decode for ChannelType {
    /// The kind that a document stands for: the number of a kind of channel.
    open spec fn decoded(doc: JsonModel) -> Option<ChannelType> {
        match doc.as_u64() {
            Some(code) => ChannelType::spec_from_code(code),
            None => None,
        }
    }

    fn from_json(doc: &Json) -> (r: Option<ChannelType>) {
        match doc.as_u64() {
            Some(code) => ChannelType::from_code(code),
            None => None,
        }
    }
}

/// The number of a kind of channel stands for that kind and no other.
pub proof fn lemma_channel_type_code(kind: ChannelType)
    ensures
        ChannelType::spec_from_code(kind.spec_code() as u64) == Some(kind),
{
}

/// The kind of a message.
#[derive(Debug, Copy, Clone, PartialEq, Eq, Structural)]
pub enum MessageObjectType {
    Default,
    RecipientAdd,
    RecipientRemove,
    Call,
    ChannelNameChange,
    ChannelIconChange,
    ChannelPinnedMessage,
    GuildMemberJoin,
    UserPremiumGuildSubscription,
    UserPremiumGuildSubscriptionTier1,
    UserPremiumGuildSubscriptionTier2,
    UserPremiumGuildSubscriptionTier3,
    ChannelFollowAdd,
    GuildDiscoveryDisqualified,
    GuildDiscoveryRequalified,
    GuildDiscoveryGracePeriodInitialWarning,
    GuildDiscoveryGracePeriodFinalWarning,
    ThreadCreated,
    Reply,
    ChatInputCommand,
    ThreadStarterMessage,
    GuildInviteReminder,
    ContextMenuCommand,
}

impl MessageObjectType {
    /// The number that stands for the kind on the wire.
    pub open spec fn spec_code(self) -> u8 {
        match self {
            MessageObjectType::Default => 0,
            MessageObjectType::RecipientAdd => 1,
            MessageObjectType::RecipientRemove => 2,
            MessageObjectType::Call => 3,
            MessageObjectType::ChannelNameChange => 4,
            MessageObjectType::ChannelIconChange => 5,
            MessageObjectType::ChannelPinnedMessage => 6,
            MessageObjectType::GuildMemberJoin => 7,
            MessageObjectType::UserPremiumGuildSubscription => 8,
            MessageObjectType::UserPremiumGuildSubscriptionTier1 => 9,
            MessageObjectType::UserPremiumGuildSubscriptionTier2 => 10,
            MessageObjectType::UserPremiumGuildSubscriptionTier3 => 11,
            MessageObjectType::ChannelFollowAdd => 12,
            MessageObjectType::GuildDiscoveryDisqualified => 14,
            MessageObjectType::GuildDiscoveryRequalified => 15,
            MessageObjectType::GuildDiscoveryGracePeriodInitialWarning => 16,
            MessageObjectType::GuildDiscoveryGracePeriodFinalWarning => 17,
            MessageObjectType::ThreadCreated => 18,
            MessageObjectType::Reply => 19,
            MessageObjectType::ChatInputCommand => 20,
            MessageObjectType::ThreadStarterMessage => 21,
            MessageObjectType::GuildInviteReminder => 22,
            MessageObjectType::ContextMenuCommand => 23,
        }
    }

    /// The kind that a number stands for, if it stands for one.
    pub open spec fn spec_from_code(code: u64) -> Option<MessageObjectType> {
        if code == 0 {
            Some(MessageObjectType::Default)
        } else if code == 1 {
            Some(MessageObjectType::RecipientAdd)
        } else if code == 2 {
            Some(MessageObjectType::RecipientRemove)
        } else if code == 3 {
            Some(MessageObjectType::Call)
        } else if code == 4 {
            Some(MessageObjectType::ChannelNameChange)
        } else if code == 5 {
            Some(MessageObjectType::ChannelIconChange)
        } else if code == 6 {
            Some(MessageObjectType::ChannelPinnedMessage)
        } else if code == 7 {
            Some(MessageObjectType::GuildMemberJoin)
        } else if code == 8 {
            Some(MessageObjectType::UserPremiumGuildSubscription)
        } else if code == 9 {
            Some(MessageObjectType::UserPremiumGuildSubscriptionTier1)
        } else if code == 10 {
            Some(MessageObjectType::UserPremiumGuildSubscriptionTier2)
        } else if code == 11 {
            Some(MessageObjectType::UserPremiumGuildSubscriptionTier3)
        } else if code == 12 {
            Some(MessageObjectType::ChannelFollowAdd)
        } else if code == 14 {
            Some(MessageObjectType::GuildDiscoveryDisqualified)
        } else if code == 15 {
            Some(MessageObjectType::GuildDiscoveryRequalified)
        } else if code == 16 {
            Some(MessageObjectType::GuildDiscoveryGracePeriodInitialWarning)
        } else if code == 17 {
            Some(MessageObjectType::GuildDiscoveryGracePeriodFinalWarning)
        } else if code == 18 {
            Some(MessageObjectType::ThreadCreated)
        } else if code == 19 {
            Some(MessageObjectType::Reply)
        } else if code == 20 {
            Some(MessageObjectType::ChatInputCommand)
        } else if code == 21 {
            Some(MessageObjectType::ThreadStarterMessage)
        } else if code == 22 {
            Some(MessageObjectType::GuildInviteReminder)
        } else if code == 23 {
            Some(MessageObjectType::ContextMenuCommand)
        } else {
            None
        }
    }

    /// The number that stands for the kind on the wire.
    #[verifier::when_used_as_spec(spec_code)]
    pub fn code(self) -> (r: u8)
        ensures
            r == self.spec_code(),
    {
        match self {
            MessageObjectType::Default => 0,
            MessageObjectType::RecipientAdd => 1,
            MessageObjectType::RecipientRemove => 2,
            MessageObjectType::Call => 3,
            MessageObjectType::ChannelNameChange => 4,
            MessageObjectType::ChannelIconChange => 5,
            MessageObjectType::ChannelPinnedMessage => 6,
            MessageObjectType::GuildMemberJoin => 7,
            MessageObjectType::UserPremiumGuildSubscription => 8,
            MessageObjectType::UserPremiumGuildSubscriptionTier1 => 9,
            MessageObjectType::UserPremiumGuildSubscriptionTier2 => 10,
            MessageObjectType::UserPremiumGuildSubscriptionTier3 => 11,
            MessageObjectType::ChannelFollowAdd => 12,
            MessageObjectType::GuildDiscoveryDisqualified => 14,
            MessageObjectType::GuildDiscoveryRequalified => 15,
            MessageObjectType::GuildDiscoveryGracePeriodInitialWarning => 16,
            MessageObjectType::GuildDiscoveryGracePeriodFinalWarning => 17,
            MessageObjectType::ThreadCreated => 18,
            MessageObjectType::Reply => 19,
            MessageObjectType::ChatInputCommand => 20,
            MessageObjectType::ThreadStarterMessage => 21,
            MessageObjectType::GuildInviteReminder => 22,
            MessageObjectType::ContextMenuCommand => 23,
        }
    }

    /// The kind that a number stands for.
    ///
    /// Returns `None` exactly where no kind has that number.
    #[verifier::when_used_as_spec(spec_from_code)]
    pub fn from_code(code: u64) -> (r: Option<MessageObjectType>)
        ensures
            r == Self::spec_from_code(code),
    {
        if code == 0 {
            Some(MessageObjectType::Default)
        } else if code == 1 {
            Some(MessageObjectType::RecipientAdd)
        } else if code == 2 {
            Some(MessageObjectType::RecipientRemove)
        } else if code == 3 {
            Some(MessageObjectType::Call)
        } else if code == 4 {
            Some(MessageObjectType::ChannelNameChange)
        } else if code == 5 {
            Some(MessageObjectType::ChannelIconChange)
        } else if code == 6 {
            Some(MessageObjectType::ChannelPinnedMessage)
        } else if code == 7 {
            Some(MessageObjectType::GuildMemberJoin)
        } else if code == 8 {
            Some(MessageObjectType::UserPremiumGuildSubscription)
        } else if code == 9 {
            Some(MessageObjectType::UserPremiumGuildSubscriptionTier1)
        } else if code == 10 {
            Some(MessageObjectType::UserPremiumGuildSubscriptionTier2)
        } else if code == 11 {
            Some(MessageObjectType::UserPremiumGuildSubscriptionTier3)
        } else if code == 12 {
            Some(MessageObjectType::ChannelFollowAdd)
        } else if code == 14 {
            Some(MessageObjectType::GuildDiscoveryDisqualified)
        } else if code == 15 {
            Some(MessageObjectType::GuildDiscoveryRequalified)
        } else if code == 16 {
            Some(MessageObjectType::GuildDiscoveryGracePeriodInitialWarning)
        } else if code == 17 {
            Some(MessageObjectType::GuildDiscoveryGracePeriodFinalWarning)
        } else if code == 18 {
            Some(MessageObjectType::ThreadCreated)
        } else if code == 19 {
            Some(MessageObjectType::Reply)
        } else if code == 20 {
            Some(MessageObjectType::ChatInputCommand)
        } else if code == 21 {
            Some(MessageObjectType::ThreadStarterMessage)
        } else if code == 22 {
            Some(MessageObjectType::GuildInviteReminder)
        } else if code == 23 {
            Some(MessageObjectType::ContextMenuCommand)
        } else {
            None
        }
    }
}

impl DeepView for MessageObjectType {
    type V = MessageObjectType;

    open spec fn deep_view(&self) -> MessageObjectType {
        *self
    }
}

impl Decode for MessageObjectType {
    /// The kind that a document stands for: the number of a kind of message.
    open spec fn decoded(doc: JsonModel) -> Option<MessageObjectType> {
        match doc.as_u64() {
            Some(code) => MessageObjectType::spec_from_code(code),
            None => None,
        }
    }

    fn from_json(doc: &Json) -> (r: Option<MessageObjectType>) {
        match doc.as_u64() {
            Some(code) => MessageObjectType::from_code(code),
            None => None,
        }
    }
}

/// The number of a kind of message stands for that kind and no other.
pub proof fn lemma_message_type_code(kind: MessageObjectType)
    ensures
        MessageObjectType::spec_from_code(kind.spec_code() as u64) == Some(kind),
{
}

/// A hash that the server computed.
#[derive(Debug, Clone, PartialEq)]
pub struct Hash {
    pub hash: String,
}

/// The mathematical value of a [`Hash`].
pub struct HashModel {
    pub hash: Seq<char>,
}

impl DeepView for Hash {
    type V = HashModel;

    open spec fn deep_view(&self) -> HashModel {
        HashModel {
            hash: self.hash.deep_view(),
        }
    }
}

impl Decode for Hash {
    /// The hash that a document stands for: an object with a string under
    /// `hash`.
    open spec fn decoded(doc: JsonModel) -> Option<HashModel> {
        let hash = required::<String>(doc, "hash"@);
        if doc is Object && hash is Some {
            Some(
                HashModel {
                    hash: hash.unwrap(),
                },
            )
        } else {
            None
        }
    }

    fn from_json(doc: &Json) -> (r: Option<Hash>) {
        if !doc.is_object() {
            return None;
        }
        let hash = match read::<String>(doc, "hash") {
            Some(hash) => hash,
            None => {
                return None;
            },
        };
        Some(Hash { hash })
    }
}

/// The hashes that the server computed of a guild.
#[derive(Debug, Clone, PartialEq)]
pub struct GuildHashes {
    pub channels: Hash,
    pub metadata: Hash,
    pub roles: Hash,
    pub version: usize,
}

/// The mathematical value of [`GuildHashes`].
pub struct GuildHashesModel {
    pub channels: HashModel,
    pub metadata: HashModel,
    pub roles: HashModel,
    pub version: usize,
}

impl DeepView for GuildHashes {
    type V = GuildHashesModel;

    open spec fn deep_view(&self) -> GuildHashesModel {
        GuildHashesModel {
            channels: self.channels.deep_view(),
            metadata: self.metadata.deep_view(),
            roles: self.roles.deep_view(),
            version: self.version.deep_view(),
        }
    }
}

impl Decode for GuildHashes {
    /// The hashes that a document stands for: an object with a hash under each
    /// of `channels`, `metadata` and `roles`, and an index under `version`.
    open spec fn decoded(doc: JsonModel) -> Option<GuildHashesModel> {
        let channels = required::<Hash>(doc, "channels"@);
        let metadata = required::<Hash>(doc, "metadata"@);
        let roles = required::<Hash>(doc, "roles"@);
        let version = required::<usize>(doc, "version"@);
        if doc is Object && channels is Some && metadata is Some && roles is Some && version is Some {
            Some(
                GuildHashesModel {
                    channels: channels.unwrap(),
                    metadata: metadata.unwrap(),
                    roles: roles.unwrap(),
                    version: version.unwrap(),
                },
            )
        } else {
            None
        }
    }

    fn from_json(doc: &Json) -> (r: Option<GuildHashes>) {
        if !doc.is_object() {
            return None;
        }
        let channels = match read::<Hash>(doc, "channels") {
            Some(channels) => channels,
            None => {
                return None;
            },
        };
        let metadata = match read::<Hash>(doc, "metadata") {
            Some(metadata) => metadata,
            None => {
                return None;
            },
        };
        let roles = match read::<Hash>(doc, "roles") {
            Some(roles) => roles,
            None => {
                return None;
            },
        };
        let version = match read::<usize>(doc, "version") {
            Some(version) => version,
            None => {
                return None;
            },
        };
        Some(GuildHashes { channels, metadata, roles, version })
    }
}

/// A user, as messages name their author and those they mention.
#[derive(Debug, Clone, PartialEq)]
pub struct UserObject {
    pub id: SnowflakeID,
    pub username: String,
    pub discriminator: String,
    pub email: Option<String>,
    pub bot: Option<bool>,
    pub system: Option<bool>,
    pub flags: Option<u64>,
    pub public_flags: Option<u64>,
}

/// The mathematical value of a [`UserObject`].
pub struct UserObjectModel {
    pub id: SnowflakeID,
    pub username: Seq<char>,
    pub discriminator: Seq<char>,
    pub email: Option<Seq<char>>,
    pub bot: Option<bool>,
    pub system: Option<bool>,
    pub flags: Option<u64>,
    pub public_flags: Option<u64>,
}

impl DeepView for UserObject {
    type V = UserObjectModel;

    open spec fn deep_view(&self) -> UserObjectModel {
        UserObjectModel {
            id: self.id.deep_view(),
            username: self.username.deep_view(),
            discriminator: self.discriminator.deep_view(),
            email: self.email.deep_view(),
            bot: self.bot.deep_view(),
            system: self.system.deep_view(),
            flags: self.flags.deep_view(),
            public_flags: self.public_flags.deep_view(),
        }
    }
}

impl Decode for UserObject {
    /// The user that a document stands for: an object with an identifier under
    /// `id` and strings under `username` and `discriminator`; `email`, `bot`,
    /// `system`, `flags` and `public_flags` may be missing or `null`.
    open spec fn decoded(doc: JsonModel) -> Option<UserObjectModel> {
        let id = required::<SnowflakeID>(doc, "id"@);
        let username = required::<String>(doc, "username"@);
        let discriminator = required::<String>(doc, "discriminator"@);
        let email = optional::<String>(doc, "email"@);
        let bot = optional::<bool>(doc, "bot"@);
        let system = optional::<bool>(doc, "system"@);
        let flags = optional::<u64>(doc, "flags"@);
        let public_flags = optional::<u64>(doc, "public_flags"@);
        if doc is Object && id is Some && username is Some && discriminator is Some && email is Some && bot is Some && system is Some && flags is Some && public_flags is Some {
            Some(
                UserObjectModel {
                    id: id.unwrap(),
                    username: username.unwrap(),
                    discriminator: discriminator.unwrap(),
                    email: email.unwrap(),
                    bot: bot.unwrap(),
                    system: system.unwrap(),
                    flags: flags.unwrap(),
                    public_flags: public_flags.unwrap(),
                },
            )
        } else {
            None
        }
    }

    fn from_json(doc: &Json) -> (r: Option<UserObject>) {
        if !doc.is_object() {
            return None;
        }
        let id = match read::<SnowflakeID>(doc, "id") {
            Some(id) => id,
            None => {
                return None;
            },
        };
        let username = match read::<String>(doc, "username") {
            Some(username) => username,
            None => {
                return None;
            },
        };
        let discriminator = match read::<String>(doc, "discriminator") {
            Some(discriminator) => discriminator,
            None => {
                return None;
            },
        };
        let email = match read_optional::<String>(doc, "email") {
            Some(email) => email,
            None => {
                return None;
            },
        };
        let bot = match read_optional::<bool>(doc, "bot") {
            Some(bot) => bot,
            None => {
                return None;
            },
        };
        let system = match read_optional::<bool>(doc, "system") {
            Some(system) => system,
            None => {
                return None;
            },
        };
        let flags = match read_optional::<u64>(doc, "flags") {
            Some(flags) => flags,
            None => {
                return None;
            },
        };
        let public_flags = match read_optional::<u64>(doc, "public_flags") {
            Some(public_flags) => public_flags,
            None => {
                return None;
            },
        };
        Some(UserObject { id, username, discriminator, email, bot, system, flags, public_flags })
    }
}

/// What a message refers to where it answers or forwards another.
#[derive(Debug, Clone, PartialEq)]
pub struct MessageReference {
    pub message_id: Option<SnowflakeID>,
    pub channel_id: Option<SnowflakeID>,
    pub guild_id: Option<SnowflakeID>,
    pub fail_if_not_exists: Option<bool>,
}

/// The mathematical value of a [`MessageReference`].
pub struct MessageReferenceModel {
    pub message_id: Option<SnowflakeID>,
    pub channel_id: Option<SnowflakeID>,
    pub guild_id: Option<SnowflakeID>,
    pub fail_if_not_exists: Option<bool>,
}

impl DeepView for MessageReference {
    type V = MessageReferenceModel;

    open spec fn deep_view(&self) -> MessageReferenceModel {
        MessageReferenceModel {
            message_id: self.message_id.deep_view(),
            channel_id: self.channel_id.deep_view(),
            guild_id: self.guild_id.deep_view(),
            fail_if_not_exists: self.fail_if_not_exists.deep_view(),
        }
    }
}

impl Decode for MessageReference {
    /// The reference that a document stands for: an object in which each of
    /// `message_id`, `channel_id`, `guild_id` and `fail_if_not_exists` may be
    /// missing or `null`.
    open spec fn decoded(doc: JsonModel) -> Option<MessageReferenceModel> {
        let message_id = optional::<SnowflakeID>(doc, "message_id"@);
        let channel_id = optional::<SnowflakeID>(doc, "channel_id"@);
        let guild_id = optional::<SnowflakeID>(doc, "guild_id"@);
        let fail_if_not_exists = optional::<bool>(doc, "fail_if_not_exists"@);
        if doc is Object && message_id is Some && channel_id is Some && guild_id is Some && fail_if_not_exists is Some {
            Some(
                MessageReferenceModel {
                    message_id: message_id.unwrap(),
                    channel_id: channel_id.unwrap(),
                    guild_id: guild_id.unwrap(),
                    fail_if_not_exists: fail_if_not_exists.unwrap(),
                },
            )
        } else {
            None
        }
    }

    fn from_json(doc: &Json) -> (r: Option<MessageReference>) {
        if !doc.is_object() {
            return None;
        }
        let message_id = match read_optional::<SnowflakeID>(doc, "message_id") {
            Some(message_id) => message_id,
            None => {
                return None;
            },
        };
        let channel_id = match read_optional::<SnowflakeID>(doc, "channel_id") {
            Some(channel_id) => channel_id,
            None => {
                return None;
            },
        };
        let guild_id = match read_optional::<SnowflakeID>(doc, "guild_id") {
            Some(guild_id) => guild_id,
            None => {
                return None;
            },
        };
        let fail_if_not_exists = match read_optional::<bool>(doc, "fail_if_not_exists") {
            Some(fail_if_not_exists) => fail_if_not_exists,
            None => {
                return None;
            },
        };
        Some(MessageReference { message_id, channel_id, guild_id, fail_if_not_exists })
    }
}

/// A channel of a guild.
#[derive(Debug, Clone, PartialEq)]
pub struct GuildChannel {
    pub id: SnowflakeID,
    pub u_type: ChannelType,
    pub name: String,
    pub position: usize,
    pub topic: Option<String>,
    pub parent_id: Option<SnowflakeID>,
    pub last_message_id: Option<SnowflakeID>,
    pub guild_id: Option<SnowflakeID>,
    pub guild_hashes: Option<GuildHashes>,
}

/// The mathematical value of a [`GuildChannel`].
pub struct GuildChannelModel {
    pub id: SnowflakeID,
    pub u_type: ChannelType,
    pub name: Seq<char>,
    pub position: usize,
    pub topic: Option<Seq<char>>,
    pub parent_id: Option<SnowflakeID>,
    pub last_message_id: Option<SnowflakeID>,
    pub guild_id: Option<SnowflakeID>,
    pub guild_hashes: Option<GuildHashesModel>,
}

impl DeepView for GuildChannel {
    type V = GuildChannelModel;

    open spec fn deep_view(&self) -> GuildChannelModel {
        GuildChannelModel {
            id: self.id.deep_view(),
            u_type: self.u_type.deep_view(),
            name: self.name.deep_view(),
            position: self.position.deep_view(),
            topic: self.topic.deep_view(),
            parent_id: self.parent_id.deep_view(),
            last_message_id: self.last_message_id.deep_view(),
            guild_id: self.guild_id.deep_view(),
            guild_hashes: self.guild_hashes.deep_view(),
        }
    }
}

impl Decode for GuildChannel {
    /// The channel that a document stands for: an object with an identifier
    /// under `id`, the number of a kind under `type`, a string under `name` and
    /// an index under `position`; the other members may be missing or `null`.
    open spec fn decoded(doc: JsonModel) -> Option<GuildChannelModel> {
        let id = required::<SnowflakeID>(doc, "id"@);
        let u_type = required::<ChannelType>(doc, "type"@);
        let name = required::<String>(doc, "name"@);
        let position = required::<usize>(doc, "position"@);
        let topic = optional::<String>(doc, "topic"@);
        let parent_id = optional::<SnowflakeID>(doc, "parent_id"@);
        let last_message_id = optional::<SnowflakeID>(doc, "last_message_id"@);
        let guild_id = optional::<SnowflakeID>(doc, "guild_id"@);
        let guild_hashes = optional::<GuildHashes>(doc, "guild_hashes"@);
        if doc is Object && id is Some && u_type is Some && name is Some && position is Some && topic is Some && parent_id is Some && last_message_id is Some && guild_id is Some && guild_hashes is Some {
            Some(
                GuildChannelModel {
                    id: id.unwrap(),
                    u_type: u_type.unwrap(),
                    name: name.unwrap(),
                    position: position.unwrap(),
                    topic: topic.unwrap(),
                    parent_id: parent_id.unwrap(),
                    last_message_id: last_message_id.unwrap(),
                    guild_id: guild_id.unwrap(),
                    guild_hashes: guild_hashes.unwrap(),
                },
            )
        } else {
            None
        }
    }

    fn from_json(doc: &Json) -> (r: Option<GuildChannel>) {
        if !doc.is_object() {
            return None;
        }
        let id = match read::<SnowflakeID>(doc, "id") {
            Some(id) => id,
            None => {
                return None;
            },
        };
        let u_type = match read::<ChannelType>(doc, "type") {
            Some(u_type) => u_type,
            None => {
                return None;
            },
        };
        let name = match read::<String>(doc, "name") {
            Some(name) => name,
            None => {
                return None;
            },
        };
        let position = match read::<usize>(doc, "position") {
            Some(position) => position,
            None => {
                return None;
            },
        };
        let topic = match read_optional::<String>(doc, "topic") {
            Some(topic) => topic,
            None => {
                return None;
            },
        };
        let parent_id = match read_optional::<SnowflakeID>(doc, "parent_id") {
            Some(parent_id) => parent_id,
            None => {
                return None;
            },
        };
        let last_message_id = match read_optional::<SnowflakeID>(doc, "last_message_id") {
            Some(last_message_id) => last_message_id,
            None => {
                return None;
            },
        };
        let guild_id = match read_optional::<SnowflakeID>(doc, "guild_id") {
            Some(guild_id) => guild_id,
            None => {
                return None;
            },
        };
        let guild_hashes = match read_optional::<GuildHashes>(doc, "guild_hashes") {
            Some(guild_hashes) => guild_hashes,
            None => {
                return None;
            },
        };
        Some(GuildChannel { id, u_type, name, position, topic, parent_id, last_message_id, guild_id, guild_hashes })
    }
}

/// A guild as the gateway announces it, with its channels.
#[derive(Debug, Clone, PartialEq)]
pub struct GuildCreate {
    pub id: SnowflakeID,
    pub name: Option<String>,
    pub owner_id: SnowflakeID,
    pub channels: Vec<GuildChannel>,
}

/// The mathematical value of a [`GuildCreate`].
pub struct GuildCreateModel {
    pub id: SnowflakeID,
    pub name: Option<Seq<char>>,
    pub owner_id: SnowflakeID,
    pub channels: Seq<GuildChannelModel>,
}

impl DeepView for GuildCreate {
    type V = GuildCreateModel;

    open spec fn deep_view(&self) -> GuildCreateModel {
        GuildCreateModel {
            id: self.id.deep_view(),
            name: self.name.deep_view(),
            owner_id: self.owner_id.deep_view(),
            channels: self.channels.deep_view(),
        }
    }
}

impl Decode for GuildCreate {
    /// The guild that a document stands for: an object with identifiers under
    /// `id` and `owner_id` and an array of channels under `channels`; `name`
    /// may be missing or `null`.
    open spec fn decoded(doc: JsonModel) -> Option<GuildCreateModel> {
        let id = required::<SnowflakeID>(doc, "id"@);
        let name = optional::<String>(doc, "name"@);
        let owner_id = required::<SnowflakeID>(doc, "owner_id"@);
        let channels = required_list::<GuildChannel>(doc, "channels"@);
        if doc is Object && id is Some && name is Some && owner_id is Some && channels is Some {
            Some(
                GuildCreateModel {
                    id: id.unwrap(),
                    name: name.unwrap(),
                    owner_id: owner_id.unwrap(),
                    channels: channels.unwrap(),
                },
            )
        } else {
            None
        }
    }

    fn from_json(doc: &Json) -> (r: Option<GuildCreate>) {
        if !doc.is_object() {
            return None;
        }
        let id = match read::<SnowflakeID>(doc, "id") {
            Some(id) => id,
            None => {
                return None;
            },
        };
        let name = match read_optional::<String>(doc, "name") {
            Some(name) => name,
            None => {
                return None;
            },
        };
        let owner_id = match read::<SnowflakeID>(doc, "owner_id") {
            Some(owner_id) => owner_id,
            None => {
                return None;
            },
        };
        let channels = match read_list::<GuildChannel>(doc, "channels") {
            Some(channels) => channels,
            None => {
                return None;
            },
        };
        Some(GuildCreate { id, name, owner_id, channels })
    }
}

/// A guild as the REST interface describes it.
#[derive(Debug, Clone, PartialEq)]
pub struct Guild {
    pub id: SnowflakeID,
    pub name: Option<String>,
    pub owner_id: SnowflakeID,
}

/// The mathematical value of a [`Guild`].
pub struct GuildModel {
    pub id: SnowflakeID,
    pub name: Option<Seq<char>>,
    pub owner_id: SnowflakeID,
}

impl DeepView for Guild {
    type V = GuildModel;

    open spec fn deep_view(&self) -> GuildModel {
        GuildModel {
            id: self.id.deep_view(),
            name: self.name.deep_view(),
            owner_id: self.owner_id.deep_view(),
        }
    }
}

impl Decode for Guild {
    /// The guild that a document stands for: an object with identifiers under
    /// `id` and `owner_id`; `name` may be missing or `null`.
    open spec fn decoded(doc: JsonModel) -> Option<GuildModel> {
        let id = required::<SnowflakeID>(doc, "id"@);
        let name = optional::<String>(doc, "name"@);
        let owner_id = required::<SnowflakeID>(doc, "owner_id"@);
        if doc is Object && id is Some && name is Some && owner_id is Some {
            Some(
                GuildModel {
                    id: id.unwrap(),
                    name: name.unwrap(),
                    owner_id: owner_id.unwrap(),
                },
            )
        } else {
            None
        }
    }

    fn from_json(doc: &Json) -> (r: Option<Guild>) {
        if !doc.is_object() {
            return None;
        }
        let id = match read::<SnowflakeID>(doc, "id") {
            Some(id) => id,
            None => {
                return None;
            },
        };
        let name = match read_optional::<String>(doc, "name") {
            Some(name) => name,
            None => {
                return None;
            },
        };
        let owner_id = match read::<SnowflakeID>(doc, "owner_id") {
            Some(owner_id) => owner_id,
            None => {
                return None;
            },
        };
        Some(Guild { id, name, owner_id })
    }
}

/// A message in a channel.
#[derive(Debug, PartialEq)]
pub struct MessageObject {
    pub id: SnowflakeID,
    pub u_type: MessageObjectType,
    pub content: String,
    pub tts: bool,
    pub referenced_message: Box<Option<MessageObject>>,
    pub nonce: Option<SnowflakeID>,
    pub channel_id: Option<SnowflakeID>,
    pub author: UserObject,
    pub mention_everyone: bool,
    pub mentions: Vec<UserObject>,
    pub mention_roles: Vec<SnowflakeID>,
    pub message_reference: Option<MessageReference>,
}

/// The mathematical value of a [`MessageObject`].
pub struct MessageObjectModel {
    pub id: SnowflakeID,
    pub u_type: MessageObjectType,
    pub content: Seq<char>,
    pub tts: bool,
    pub referenced_message: Option<Box<MessageObjectModel>>,
    pub nonce: Option<SnowflakeID>,
    pub channel_id: Option<SnowflakeID>,
    pub author: UserObjectModel,
    pub mention_everyone: bool,
    pub mentions: Seq<UserObjectModel>,
    pub mention_roles: Seq<SnowflakeID>,
    pub message_reference: Option<MessageReferenceModel>,
}

impl MessageObject {
    /// The value of the message, with that of the message it refers to.
    pub open spec fn model(self) -> MessageObjectModel
        decreases self,
    {
        MessageObjectModel {
            id: self.id,
            u_type: self.u_type,
            content: self.content@,
            tts: self.tts,
            referenced_message: match *self.referenced_message {
                Some(message) => Some(Box::new(message.model())),
                None => None,
            },
            nonce: self.nonce,
            channel_id: self.channel_id,
            author: self.author.deep_view(),
            mention_everyone: self.mention_everyone,
            mentions: self.mentions.deep_view(),
            mention_roles: self.mention_roles.deep_view(),
            message_reference: self.message_reference.deep_view(),
        }
    }

    /// Reads a message, and the message it refers to, from a document.
    pub fn parse(doc: &Json) -> (r: Option<MessageObject>)
        ensures
            r.deep_view() == MessageObjectModel::parsed(doc@),
        decreases *doc,
    {
        if !doc.is_object() {
            return None;
        }
        let id = match read::<SnowflakeID>(doc, "id") {
            Some(id) => id,
            None => {
                return None;
            },
        };
        let u_type = match read::<MessageObjectType>(doc, "type") {
            Some(u_type) => u_type,
            None => {
                return None;
            },
        };
        let content = match read::<String>(doc, "content") {
            Some(content) => content,
            None => {
                return None;
            },
        };
        let tts = match read::<bool>(doc, "tts") {
            Some(tts) => tts,
            None => {
                return None;
            },
        };
        let referenced_message = match doc.optional("referenced_message") {
            None => None,
            Some(value) => match MessageObject::parse(value) {
                Some(message) => Some(message),
                None => {
                    return None;
                },
            },
        };
        let nonce = match read_optional::<SnowflakeID>(doc, "nonce") {
            Some(nonce) => nonce,
            None => {
                return None;
            },
        };
        let channel_id = match read_optional::<SnowflakeID>(doc, "channel_id") {
            Some(channel_id) => channel_id,
            None => {
                return None;
            },
        };
        let author = match read::<UserObject>(doc, "author") {
            Some(author) => author,
            None => {
                return None;
            },
        };
        let mention_everyone = match read::<bool>(doc, "mention_everyone") {
            Some(mention_everyone) => mention_everyone,
            None => {
                return None;
            },
        };
        let mentions = match read_list::<UserObject>(doc, "mentions") {
            Some(mentions) => mentions,
            None => {
                return None;
            },
        };
        let mention_roles = match read_list::<SnowflakeID>(doc, "mention_roles") {
            Some(mention_roles) => mention_roles,
            None => {
                return None;
            },
        };
        let message_reference = match read_optional::<MessageReference>(doc, "message_reference") {
            Some(message_reference) => message_reference,
            None => {
                return None;
            },
        };
        Some(
            MessageObject {
                id,
                u_type,
                content,
                tts,
                referenced_message: Box::new(referenced_message),
                nonce,
                channel_id,
                author,
                mention_everyone,
                mentions,
                mention_roles,
                message_reference,
            },
        )
    }
}

impl MessageObjectModel {
    /// The message that a document stands for.
    ///
    /// The document must be an object with an identifier under `id`, the
    /// number of a kind under `type`, a string under `content`, truth values
    /// under `tts` and `mention_everyone`, a user under `author`, an array of
    /// users under `mentions` and an array of identifiers under
    /// `mention_roles`. Under `referenced_message` it may hold another
    /// message; that member and `nonce`, `channel_id` and
    /// `message_reference` may be missing or `null`.
    pub open spec fn parsed(doc: JsonModel) -> Option<MessageObjectModel>
        decreases doc,
    {
        let id = required::<SnowflakeID>(doc, "id"@);
        let u_type = required::<MessageObjectType>(doc, "type"@);
        let content = required::<String>(doc, "content"@);
        let tts = required::<bool>(doc, "tts"@);
        let referenced_message = match doc.optional("referenced_message"@) {
            None => Some(None),
            Some(value) => {
                proof {
                    lemma_member_decreases(doc, "referenced_message"@);
                }
                match Self::parsed(value) {
                    Some(message) => Some(Some(Box::new(message))),
                    None => None,
                }
            },
        };
        let nonce = optional::<SnowflakeID>(doc, "nonce"@);
        let channel_id = optional::<SnowflakeID>(doc, "channel_id"@);
        let author = required::<UserObject>(doc, "author"@);
        let mention_everyone = required::<bool>(doc, "mention_everyone"@);
        let mentions = required_list::<UserObject>(doc, "mentions"@);
        let mention_roles = required_list::<SnowflakeID>(doc, "mention_roles"@);
        let message_reference = optional::<MessageReference>(doc, "message_reference"@);
        if doc is Object && id is Some && u_type is Some && content is Some && tts is Some
            && referenced_message is Some && nonce is Some && channel_id is Some && author is Some
            && mention_everyone is Some && mentions is Some && mention_roles is Some
            && message_reference is Some {
            Some(
                MessageObjectModel {
                    id: id.unwrap(),
                    u_type: u_type.unwrap(),
                    content: content.unwrap(),
                    tts: tts.unwrap(),
                    referenced_message: referenced_message.unwrap(),
                    nonce: nonce.unwrap(),
                    channel_id: channel_id.unwrap(),
                    author: author.unwrap(),
                    mention_everyone: mention_everyone.unwrap(),
                    mentions: mentions.unwrap(),
                    mention_roles: mention_roles.unwrap(),
                    message_reference: message_reference.unwrap(),
                },
            )
        } else {
            None
        }
    }
}

impl DeepView for MessageObject {
    type V = MessageObjectModel;

    open spec fn deep_view(&self) -> MessageObjectModel {
        self.model()
    }
}

impl Decode for MessageObject {
    open spec fn decoded(doc: JsonModel) -> Option<MessageObjectModel> {
        MessageObjectModel::parsed(doc)
    }

    fn from_json(doc: &Json) -> (r: Option<MessageObject>) {
        MessageObject::parse(doc)
    }
}

/// What a client sends to create a channel.
#[derive(Debug, Clone, PartialEq)]
pub struct GuildChannelCreate {
    pub u_type: ChannelType,
    pub name: String,
    pub topic: Option<String>,
    pub bitrate: Option<usize>,
    pub user_limit: Option<usize>,
    pub rate_limit_per_user: usize,
    pub position: usize,
    pub parent_id: Option<SnowflakeID>,
    pub nsfw: bool,
}

/// The mathematical value of a [`GuildChannelCreate`].
pub struct GuildChannelCreateModel {
    pub u_type: ChannelType,
    pub name: Seq<char>,
    pub topic: Option<Seq<char>>,
    pub bitrate: Option<usize>,
    pub user_limit: Option<usize>,
    pub rate_limit_per_user: usize,
    pub position: usize,
    pub parent_id: Option<SnowflakeID>,
    pub nsfw: bool,
}

impl DeepView for GuildChannelCreate {
    type V = GuildChannelCreateModel;

    open spec fn deep_view(&self) -> GuildChannelCreateModel {
        GuildChannelCreateModel {
            u_type: self.u_type,
            name: self.name@,
            topic: self.topic.deep_view(),
            bitrate: self.bitrate,
            user_limit: self.user_limit,
            rate_limit_per_user: self.rate_limit_per_user,
            position: self.position,
            parent_id: self.parent_id,
            nsfw: self.nsfw,
        }
    }
}

/// The document of an index.
pub open spec fn index_doc(n: usize) -> JsonModel {
    JsonModel::Number(NumberModel::Int(n as int))
}

/// The document of an index that may be missing: `null` where it is.
pub open spec fn optional_index_doc(n: Option<usize>) -> JsonModel {
    match n {
        Some(n) => index_doc(n),
        None => JsonModel::Null,
    }
}

/// The document of a text that may be missing: `null` where it is.
pub open spec fn optional_text_doc(text: Option<Seq<char>>) -> JsonModel {
    match text {
        Some(text) => JsonModel::Text(text),
        None => JsonModel::Null,
    }
}

/// The document of an identifier that may be missing: `null` where it is.
pub open spec fn optional_id_doc(id: Option<SnowflakeID>) -> JsonModel {
    match id {
        Some(id) => id.encoded(),
        None => JsonModel::Null,
    }
}

impl GuildChannelCreateModel {
    /// The document that stands for the request: an object with all nine
    /// members, `null` where an optional one is missing.
    pub open spec fn encoded(self) -> JsonModel {
        JsonModel::Object(
            Map::empty().insert("type"@, index_doc(self.u_type.spec_code() as usize)).insert(
                "name"@,
                JsonModel::Text(self.name),
            ).insert("topic"@, optional_text_doc(self.topic)).insert(
                "bitrate"@,
                optional_index_doc(self.bitrate),
            ).insert("user_limit"@, optional_index_doc(self.user_limit)).insert(
                "rate_limit_per_user"@,
                index_doc(self.rate_limit_per_user),
            ).insert("position"@, index_doc(self.position)).insert(
                "parent_id"@,
                optional_id_doc(self.parent_id),
            ).insert("nsfw"@, JsonModel::Bool(self.nsfw)),
        )
    }
}

/// The document of an index that may be missing.
fn optional_index_json(n: Option<usize>) -> (r: Json)
    ensures
        r@ == optional_index_doc(n),
        sound(r, 0),
{
    match n {
        Some(n) => Json::unsigned(n as u64),
        None => Json::Null,
    }
}

impl GuildChannelCreate {
    /// A request for a channel of the given kind and name, with an optional
    /// topic and an optional parent, and every other setting at its default.
    pub fn simple(
        u_type: ChannelType,
        name: &str,
        topic: Option<String>,
        parent_id: Option<SnowflakeID>,
    ) -> (r: Self)
        ensures
            r.deep_view() == (GuildChannelCreateModel {
                u_type,
                name: name@,
                topic: topic.deep_view(),
                bitrate: None,
                user_limit: None,
                rate_limit_per_user: 0,
                position: 0,
                parent_id,
                nsfw: false,
            }),
    {
        GuildChannelCreate {
            u_type,
            name: name.to_owned(),
            topic,
            bitrate: None,
            user_limit: None,
            rate_limit_per_user: 0,
            position: 0,
            parent_id,
            nsfw: false,
        }
    }

    /// Writes the request as a document: an object of strings, integers,
    /// truth values and `null`.
    pub fn to_json(&self) -> (r: Json)
        ensures
            r@ == self.deep_view().encoded(),
            sound(r, 1),
    {
        let topic = match &self.topic {
            Some(text) => Json::text(text.as_str()),
            None => Json::Null,
        };
        let parent_id = match &self.parent_id {
            Some(id) => id.to_json(),
            None => Json::Null,
        };
        Json::object().with("type", Json::unsigned(self.u_type.code() as u64)).with(
            "name",
            Json::text(self.name.as_str()),
        ).with("topic", topic).with("bitrate", optional_index_json(self.bitrate)).with(
            "user_limit",
            optional_index_json(self.user_limit),
        ).with("rate_limit_per_user", Json::unsigned(self.rate_limit_per_user as u64)).with(
            "position",
            Json::unsigned(self.position as u64),
        ).with("parent_id", parent_id).with("nsfw", Json::Bool(self.nsfw))
    }
}

/// What the gateway tells about the connection and about guilds.
#[derive(Debug, Clone, PartialEq)]
pub enum Event {
    /// The socket is open.
    INIT,
    /// A guild has become available.
    GuildCreate(GuildCreate),
}

/// What the gateway tells about messages.
#[derive(Debug, PartialEq)]
pub enum MessageEvent {
    MessageCreate(MessageObject),
    MessageUpdate(MessageObject),
    MessageDelete(MessageObject),
}

/// What the gateway tells about channels.
#[derive(Debug, Clone, PartialEq)]
pub enum ChannelEvent {
    ChannelCreate(GuildChannel),
    ChannelUpdate(GuildChannel),
    ChannelDelete(GuildChannel),
}

/// Any event that the gateway session hands to its subscribers.
#[derive(Debug, PartialEq)]
pub enum DomainEvent {
    Gateway(Event),
    Message(MessageEvent),
    Channel(ChannelEvent),
}

/// The mathematical value of an [`Event`].
pub enum EventModel {
    INIT,
    GuildCreate(GuildCreateModel),
}

/// The mathematical value of a [`MessageEvent`].
pub enum MessageEventModel {
    MessageCreate(MessageObjectModel),
    MessageUpdate(MessageObjectModel),
    MessageDelete(MessageObjectModel),
}

/// The mathematical value of a [`ChannelEvent`].
pub enum ChannelEventModel {
    ChannelCreate(GuildChannelModel),
    ChannelUpdate(GuildChannelModel),
    ChannelDelete(GuildChannelModel),
}

/// The mathematical value of a [`DomainEvent`].
pub enum DomainEventModel {
    Gateway(EventModel),
    Message(MessageEventModel),
    Channel(ChannelEventModel),
}

impl DeepView for Event {
    type V = EventModel;

    open spec fn deep_view(&self) -> EventModel {
        match self {
            Event::INIT => EventModel::INIT,
            Event::GuildCreate(guild) => EventModel::GuildCreate(guild.deep_view()),
        }
    }
}

impl DeepView for MessageEvent {
    type V = MessageEventModel;

    open spec fn deep_view(&self) -> MessageEventModel {
        match self {
            MessageEvent::MessageCreate(m) => MessageEventModel::MessageCreate(m.deep_view()),
            MessageEvent::MessageUpdate(m) => MessageEventModel::MessageUpdate(m.deep_view()),
            MessageEvent::MessageDelete(m) => MessageEventModel::MessageDelete(m.deep_view()),
        }
    }
}

impl DeepView for ChannelEvent {
    type V = ChannelEventModel;

    open spec fn deep_view(&self) -> ChannelEventModel {
        match self {
            ChannelEvent::ChannelCreate(c) => ChannelEventModel::ChannelCreate(c.deep_view()),
            ChannelEvent::ChannelUpdate(c) => ChannelEventModel::ChannelUpdate(c.deep_view()),
            ChannelEvent::ChannelDelete(c) => ChannelEventModel::ChannelDelete(c.deep_view()),
        }
    }
}

impl DeepView for DomainEvent {
    type V = DomainEventModel;

    open spec fn deep_view(&self) -> DomainEventModel {
        match self {
            DomainEvent::Gateway(e) => DomainEventModel::Gateway(e.deep_view()),
            DomainEvent::Message(e) => DomainEventModel::Message(e.deep_view()),
            DomainEvent::Channel(e) => DomainEventModel::Channel(e.deep_view()),
        }
    }
}

/// The event that a dispatch with the given name and payload stands for.
///
/// The outer `None` says that the name is known and the payload does not
/// have the shape that goes with it. `Some(None)` says that the dispatch
/// stands for no event: its name is `READY`, or is not known.
pub open spec fn classified(name: Seq<char>, payload: JsonModel) -> Option<Option<DomainEventModel>> {
    if name == "GUILD_CREATE"@ {
        match GuildCreate::decoded(payload) {
            Some(guild) => Some(Some(DomainEventModel::Gateway(EventModel::GuildCreate(guild)))),
            None => None,
        }
    } else if name == "MESSAGE_CREATE"@ || name == "MESSAGE_UPDATE"@ || name == "MESSAGE_DELETE"@ {
        match MessageObject::decoded(payload) {
            Some(message) => Some(
                Some(
                    DomainEventModel::Message(
                        if name == "MESSAGE_CREATE"@ {
                            MessageEventModel::MessageCreate(message)
                        } else if name == "MESSAGE_DELETE"@ {
                            MessageEventModel::MessageDelete(message)
                        } else {
                            MessageEventModel::MessageUpdate(message)
                        },
                    ),
                ),
            ),
            None => None,
        }
    } else if name == "CHANNEL_UPDATE"@ || name == "CHANNEL_CREATE"@ || name == "CHANNEL_DELETE"@ {
        match GuildChannel::decoded(payload) {
            Some(channel) => Some(
                Some(
                    DomainEventModel::Channel(
                        if name == "CHANNEL_CREATE"@ {
                            ChannelEventModel::ChannelCreate(channel)
                        } else if name == "CHANNEL_DELETE"@ {
                            ChannelEventModel::ChannelDelete(channel)
                        } else {
                            ChannelEventModel::ChannelUpdate(channel)
                        },
                    ),
                ),
            ),
            None => None,
        }
    } else {
        Some(None)
    }
}

/// Turns a dispatch into the event it stands for.
///
/// Returns `Some(None)` for `READY` and for a name that is not known, and
/// `None` exactly where the name is known and the payload does not have the
/// shape that goes with it.
pub fn classify(name: &str, payload: &Json) -> (r: Option<Option<DomainEvent>>)
    ensures
        r.deep_view() == classified(name@, payload@),
{
    if same_text(name, "GUILD_CREATE") {
        match GuildCreate::from_json(payload) {
            Some(guild) => Some(Some(DomainEvent::Gateway(Event::GuildCreate(guild)))),
            None => None,
        }
    } else if same_text(name, "MESSAGE_CREATE") || same_text(name, "MESSAGE_UPDATE") || same_text(
        name,
        "MESSAGE_DELETE",
    ) {
        match MessageObject::from_json(payload) {
            Some(message) => {
                let event = if same_text(name, "MESSAGE_CREATE") {
                    MessageEvent::MessageCreate(message)
                } else if same_text(name, "MESSAGE_DELETE") {
                    MessageEvent::MessageDelete(message)
                } else {
                    MessageEvent::MessageUpdate(message)
                };
                Some(Some(DomainEvent::Message(event)))
            },
            None => None,
        }
    } else if same_text(name, "CHANNEL_UPDATE") || same_text(name, "CHANNEL_CREATE") || same_text(
        name,
        "CHANNEL_DELETE",
    ) {
        match GuildChannel::from_json(payload) {
            Some(channel) => {
                let event = if same_text(name, "CHANNEL_CREATE") {
                    ChannelEvent::ChannelCreate(channel)
                } else if same_text(name, "CHANNEL_DELETE") {
                    ChannelEvent::ChannelDelete(channel)
                } else {
                    ChannelEvent::ChannelUpdate(channel)
                };
                Some(Some(DomainEvent::Channel(event)))
            },
            None => None,
        }
    } else {
        Some(None)
    }
}

/// Whether a dispatch of this name stands for an event.
pub open spec fn recognized(name: Seq<char>) -> bool {
    ||| name == "GUILD_CREATE"@
    ||| name == "MESSAGE_CREATE"@
    ||| name == "MESSAGE_UPDATE"@
    ||| name == "MESSAGE_DELETE"@
    ||| name == "CHANNEL_CREATE"@
    ||| name == "CHANNEL_UPDATE"@
    ||| name == "CHANNEL_DELETE"@
}

/// A dispatch named `MESSAGE_CREATE` stands for a message that was created
/// and carries its payload read as a message. Where the payload is no
/// message, the dispatch cannot be read.
pub proof fn lemma_message_create(payload: JsonModel)
    ensures
        classified("MESSAGE_CREATE"@, payload) == match MessageObject::decoded(payload) {
            Some(message) => Some(
                Some(DomainEventModel::Message(MessageEventModel::MessageCreate(message))),
            ),
            None => None,
        },
{
    reveal_strlit("MESSAGE_CREATE");
    reveal_strlit("GUILD_CREATE");
    assert("MESSAGE_CREATE"@.len() == 14);
    assert("GUILD_CREATE"@.len() == 12);
}

/// A dispatch whose name is not recognized stands for no event, and is no
/// error, whatever its payload.
pub proof fn lemma_unrecognized(name: Seq<char>, payload: JsonModel)
    requires
        !recognized(name),
    ensures
        classified(name, payload) == Some(None::<DomainEventModel>),
{
}

} // verus!
