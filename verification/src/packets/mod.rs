//! The message catalog: every known typed message, its internal
//! identifier, its side, and table-driven encode and decode dispatch.

pub mod client;
pub mod manual_adapters;
pub mod server;

pub use self::client::{AcceptArenaDeath, AcceptTrade, AcceptTradeModel, ActivePetUpdateRequest, AoeAck, Buy, CancelTrade, ChangeGuildRank, ChangeGuildRankModel, ChangeTrade, ChangeTradeModel, CheckCredits, ChooseName, ChooseNameModel, ClaimLoginRewardMsg, ClaimLoginRewardMsgModel, Create, CreateGuild, CreateGuildModel, EditAccountList, EnemyHit, EnterArena, Escape, GotoAck, GroundDamage, GuildInvite, GuildInviteModel, GuildRemove, GuildRemoveModel, Hello, HelloModel, InvDrop, InvSwap, JoinGuild, JoinGuildModel, KeyInfoRequest, Load, Move, MoveModel, OtherHit, PetChangeFormMsg, PetChangeSkinMsg, PetUpgradeRequest, PetUpgradeRequestModel, PlayerHit, PlayerShoot, PlayerText, PlayerTextModel, Pong, QuestFetchAsk, QuestRedeem, QuestRedeemModel, QuestRoomMsg, RequestTrade, RequestTradeModel, ResetDailyQuests, Reskin, SetCondition, ShootAck, SquareHit, Teleport, UpdateAck, UseItem, UsePortal};
pub use self::manual_adapters::{enemy_shoot_dec, enemy_shoot_enc, EnemyShoot, Pic, PicModel};
pub use self::server::{AccountList, AccountListModel, ActivePetUpdate, AllyShoot, Aoe, ArenaDeath, BuyResult, BuyResultModel, ClientStat, ClientStatModel, CreateSuccess, Damage, DamageModel, Death, DeathModel, DeletePet, EvolvePet, Failure, FailureModel, File, FileModel, GlobalNotification, GlobalNotificationModel, Goto, GuildResult, GuildResultModel, HatchPet, HatchPetModel, ImminentArenaWave, InvResult, InvitedToGuild, InvitedToGuildModel, KeyInfoResponse, KeyInfoResponseModel, LoginRewardMsg, MapInfo, MapInfoModel, NameResult, NameResultModel, NewAbility, NewTick, NewTickModel, Notification, NotificationModel, PasswordPrompt, PetYardUpdate, Ping, PlaySound, QuestFetchResponse, QuestFetchResponseModel, QuestObjId, QuestRedeemResponse, QuestRedeemResponseModel, RealmHeroLeftMsg, Reconnect, ReconnectModel, ReskinUnlock, ServerPlayerShoot, ShowEffect, Text, TextModel, TradeAccepted, TradeAcceptedModel, TradeChanged, TradeChangedModel, TradeDone, TradeDoneModel, TradeRequested, TradeRequestedModel, TradeStart, TradeStartModel, Update, UpdateModel, VerifyEmail};
use crate::adapters::{lemma_seq_assoc, lemma_skip_concat, lemma_skip_skip, lemma_take_concat, Error, NetworkAdapter, Reader};
use vstd::prelude::*;

verus! {

/// The internal identifier of every known message variant. Wire IDs vary
/// between game versions; these are the stable names this library uses.
#[derive(Debug, PartialEq, Eq, Structural, PartialOrd, Ord, Hash, Clone, Copy)]
pub enum InternalPacketId {
    AcceptTrade,
    ActivePetUpdateRequest,
    AoeAck,
    Buy,
    CancelTrade,
    ChangeGuildRank,
    ChangeTrade,
    CheckCredits,
    ChooseName,
    ClaimLoginRewardMsg,
    Create,
    CreateGuild,
    EditAccountList,
    EnemyHit,
    EnterArena,
    Escape,
    GotoAck,
    GroundDamage,
    GuildInvite,
    GuildRemove,
    Hello,
    InvDrop,
    InvSwap,
    JoinGuild,
    KeyInfoRequest,
    Load,
    Move,
    OtherHit,
    PetChangeFormMsg,
    PetChangeSkinMsg,
    PetUpgradeRequest,
    PlayerHit,
    PlayerShoot,
    PlayerText,
    QuestRedeem,
    QuestRoomMsg,
    Pong,
    RequestTrade,
    ResetDailyQuests,
    Reskin,
    SetCondition,
    ShootAck,
    SquareHit,
    Teleport,
    UpdateAck,
    UseItem,
    UsePortal,
    QuestFetchAsk,
    AcceptArenaDeath,
    AccountList,
    ActivePetUpdate,
    AllyShoot,
    Aoe,
    ArenaDeath,
    BuyResult,
    ClientStat,
    CreateSuccess,
    Damage,
    Death,
    DeletePet,
    EnemyShoot,
    EvolvePet,
    Failure,
    File,
    GlobalNotification,
    Goto,
    GuildResult,
    HatchPet,
    InvResult,
    InvitedToGuild,
    ImminentArenaWave,
    KeyInfoResponse,
    LoginRewardMsg,
    MapInfo,
    NameResult,
    NewAbility,
    NewTick,
    Notification,
    PasswordPrompt,
    PetYardUpdate,
    Pic,
    Ping,
    PlaySound,
    QuestObjId,
    QuestFetchResponse,
    QuestRedeemResponse,
    RealmHeroLeftMsg,
    Reconnect,
    ReskinUnlock,
    ServerPlayerShoot,
    ShowEffect,
    Text,
    TradeAccepted,
    TradeChanged,
    TradeDone,
    TradeRequested,
    TradeStart,
    Update,
    VerifyEmail,
}

/// A message of any known type, from either side.
#[verifier::ext_equal]
#[derive(Debug, PartialEq, Clone)]
pub enum Packet {
    AcceptTrade(AcceptTrade),
    ActivePetUpdateRequest(ActivePetUpdateRequest),
    AoeAck(AoeAck),
    Buy(Buy),
    CancelTrade(CancelTrade),
    ChangeGuildRank(ChangeGuildRank),
    ChangeTrade(ChangeTrade),
    CheckCredits(CheckCredits),
    ChooseName(ChooseName),
    ClaimLoginRewardMsg(ClaimLoginRewardMsg),
    Create(Create),
    CreateGuild(CreateGuild),
    EditAccountList(EditAccountList),
    EnemyHit(EnemyHit),
    EnterArena(EnterArena),
    Escape(Escape),
    GotoAck(GotoAck),
    GroundDamage(GroundDamage),
    GuildInvite(GuildInvite),
    GuildRemove(GuildRemove),
    Hello(Hello),
    InvDrop(InvDrop),
    InvSwap(InvSwap),
    JoinGuild(JoinGuild),
    KeyInfoRequest(KeyInfoRequest),
    Load(Load),
    Move(Move),
    OtherHit(OtherHit),
    PetChangeFormMsg(PetChangeFormMsg),
    PetChangeSkinMsg(PetChangeSkinMsg),
    PetUpgradeRequest(PetUpgradeRequest),
    PlayerHit(PlayerHit),
    PlayerShoot(PlayerShoot),
    PlayerText(PlayerText),
    QuestRedeem(QuestRedeem),
    QuestRoomMsg(QuestRoomMsg),
    Pong(Pong),
    RequestTrade(RequestTrade),
    ResetDailyQuests(ResetDailyQuests),
    Reskin(Reskin),
    SetCondition(SetCondition),
    ShootAck(ShootAck),
    SquareHit(SquareHit),
    Teleport(Teleport),
    UpdateAck(UpdateAck),
    UseItem(UseItem),
    UsePortal(UsePortal),
    QuestFetchAsk(QuestFetchAsk),
    AcceptArenaDeath(AcceptArenaDeath),
    AccountList(AccountList),
    ActivePetUpdate(ActivePetUpdate),
    AllyShoot(AllyShoot),
    Aoe(Aoe),
    ArenaDeath(ArenaDeath),
    BuyResult(BuyResult),
    ClientStat(ClientStat),
    CreateSuccess(CreateSuccess),
    Damage(Damage),
    Death(Death),
    DeletePet(DeletePet),
    EnemyShoot(EnemyShoot),
    EvolvePet(EvolvePet),
    Failure(Failure),
    File(File),
    GlobalNotification(GlobalNotification),
    Goto(Goto),
    GuildResult(GuildResult),
    HatchPet(HatchPet),
    InvResult(InvResult),
    InvitedToGuild(InvitedToGuild),
    ImminentArenaWave(ImminentArenaWave),
    KeyInfoResponse(KeyInfoResponse),
    LoginRewardMsg(LoginRewardMsg),
    MapInfo(MapInfo),
    NameResult(NameResult),
    NewAbility(NewAbility),
    NewTick(NewTick),
    Notification(Notification),
    PasswordPrompt(PasswordPrompt),
    PetYardUpdate(PetYardUpdate),
    Pic(Pic),
    Ping(Ping),
    PlaySound(PlaySound),
    QuestObjId(QuestObjId),
    QuestFetchResponse(QuestFetchResponse),
    QuestRedeemResponse(QuestRedeemResponse),
    RealmHeroLeftMsg(RealmHeroLeftMsg),
    Reconnect(Reconnect),
    ReskinUnlock(ReskinUnlock),
    ServerPlayerShoot(ServerPlayerShoot),
    ShowEffect(ShowEffect),
    Text(Text),
    TradeAccepted(TradeAccepted),
    TradeChanged(TradeChanged),
    TradeDone(TradeDone),
    TradeRequested(TradeRequested),
    TradeStart(TradeStart),
    Update(Update),
    VerifyEmail(VerifyEmail),
}

/// The mathematical model of a decoded `Packet`.
#[verifier::ext_equal]
pub enum PacketModel {
    AcceptTrade(AcceptTradeModel),
    ActivePetUpdateRequest(ActivePetUpdateRequest),
    AoeAck(AoeAck),
    Buy(Buy),
    CancelTrade(CancelTrade),
    ChangeGuildRank(ChangeGuildRankModel),
    ChangeTrade(ChangeTradeModel),
    CheckCredits(CheckCredits),
    ChooseName(ChooseNameModel),
    ClaimLoginRewardMsg(ClaimLoginRewardMsgModel),
    Create(Create),
    CreateGuild(CreateGuildModel),
    EditAccountList(EditAccountList),
    EnemyHit(EnemyHit),
    EnterArena(EnterArena),
    Escape(Escape),
    GotoAck(GotoAck),
    GroundDamage(GroundDamage),
    GuildInvite(GuildInviteModel),
    GuildRemove(GuildRemoveModel),
    Hello(HelloModel),
    InvDrop(InvDrop),
    InvSwap(InvSwap),
    JoinGuild(JoinGuildModel),
    KeyInfoRequest(KeyInfoRequest),
    Load(Load),
    Move(MoveModel),
    OtherHit(OtherHit),
    PetChangeFormMsg(PetChangeFormMsg),
    PetChangeSkinMsg(PetChangeSkinMsg),
    PetUpgradeRequest(PetUpgradeRequestModel),
    PlayerHit(PlayerHit),
    PlayerShoot(PlayerShoot),
    PlayerText(PlayerTextModel),
    QuestRedeem(QuestRedeemModel),
    QuestRoomMsg(QuestRoomMsg),
    Pong(Pong),
    RequestTrade(RequestTradeModel),
    ResetDailyQuests(ResetDailyQuests),
    Reskin(Reskin),
    SetCondition(SetCondition),
    ShootAck(ShootAck),
    SquareHit(SquareHit),
    Teleport(Teleport),
    UpdateAck(UpdateAck),
    UseItem(UseItem),
    UsePortal(UsePortal),
    QuestFetchAsk(QuestFetchAsk),
    AcceptArenaDeath(AcceptArenaDeath),
    AccountList(AccountListModel),
    ActivePetUpdate(ActivePetUpdate),
    AllyShoot(AllyShoot),
    Aoe(Aoe),
    ArenaDeath(ArenaDeath),
    BuyResult(BuyResultModel),
    ClientStat(ClientStatModel),
    CreateSuccess(CreateSuccess),
    Damage(DamageModel),
    Death(DeathModel),
    DeletePet(DeletePet),
    EnemyShoot(EnemyShoot),
    EvolvePet(EvolvePet),
    Failure(FailureModel),
    File(FileModel),
    GlobalNotification(GlobalNotificationModel),
    Goto(Goto),
    GuildResult(GuildResultModel),
    HatchPet(HatchPetModel),
    InvResult(InvResult),
    InvitedToGuild(InvitedToGuildModel),
    ImminentArenaWave(ImminentArenaWave),
    KeyInfoResponse(KeyInfoResponseModel),
    LoginRewardMsg(LoginRewardMsg),
    MapInfo(MapInfoModel),
    NameResult(NameResultModel),
    NewAbility(NewAbility),
    NewTick(NewTickModel),
    Notification(NotificationModel),
    PasswordPrompt(PasswordPrompt),
    PetYardUpdate(PetYardUpdate),
    Pic(PicModel),
    Ping(Ping),
    PlaySound(PlaySound),
    QuestObjId(QuestObjId),
    QuestFetchResponse(QuestFetchResponseModel),
    QuestRedeemResponse(QuestRedeemResponseModel),
    RealmHeroLeftMsg(RealmHeroLeftMsg),
    Reconnect(ReconnectModel),
    ReskinUnlock(ReskinUnlock),
    ServerPlayerShoot(ServerPlayerShoot),
    ShowEffect(ShowEffect),
    Text(TextModel),
    TradeAccepted(TradeAcceptedModel),
    TradeChanged(TradeChangedModel),
    TradeDone(TradeDoneModel),
    TradeRequested(TradeRequestedModel),
    TradeStart(TradeStartModel),
    Update(UpdateModel),
    VerifyEmail(VerifyEmail),
}

/// The internal identifier of a packet model.
pub open spec fn packet_model_id(m: PacketModel) -> InternalPacketId {
    match m {
        PacketModel::AcceptTrade(_) => InternalPacketId::AcceptTrade,
        PacketModel::ActivePetUpdateRequest(_) => InternalPacketId::ActivePetUpdateRequest,
        PacketModel::AoeAck(_) => InternalPacketId::AoeAck,
        PacketModel::Buy(_) => InternalPacketId::Buy,
        PacketModel::CancelTrade(_) => InternalPacketId::CancelTrade,
        PacketModel::ChangeGuildRank(_) => InternalPacketId::ChangeGuildRank,
        PacketModel::ChangeTrade(_) => InternalPacketId::ChangeTrade,
        PacketModel::CheckCredits(_) => InternalPacketId::CheckCredits,
        PacketModel::ChooseName(_) => InternalPacketId::ChooseName,
        PacketModel::ClaimLoginRewardMsg(_) => InternalPacketId::ClaimLoginRewardMsg,
        PacketModel::Create(_) => InternalPacketId::Create,
        PacketModel::CreateGuild(_) => InternalPacketId::CreateGuild,
        PacketModel::EditAccountList(_) => InternalPacketId::EditAccountList,
        PacketModel::EnemyHit(_) => InternalPacketId::EnemyHit,
        PacketModel::EnterArena(_) => InternalPacketId::EnterArena,
        PacketModel::Escape(_) => InternalPacketId::Escape,
        PacketModel::GotoAck(_) => InternalPacketId::GotoAck,
        PacketModel::GroundDamage(_) => InternalPacketId::GroundDamage,
        PacketModel::GuildInvite(_) => InternalPacketId::GuildInvite,
        PacketModel::GuildRemove(_) => InternalPacketId::GuildRemove,
        PacketModel::Hello(_) => InternalPacketId::Hello,
        PacketModel::InvDrop(_) => InternalPacketId::InvDrop,
        PacketModel::InvSwap(_) => InternalPacketId::InvSwap,
        PacketModel::JoinGuild(_) => InternalPacketId::JoinGuild,
        PacketModel::KeyInfoRequest(_) => InternalPacketId::KeyInfoRequest,
        PacketModel::Load(_) => InternalPacketId::Load,
        PacketModel::Move(_) => InternalPacketId::Move,
        PacketModel::OtherHit(_) => InternalPacketId::OtherHit,
        PacketModel::PetChangeFormMsg(_) => InternalPacketId::PetChangeFormMsg,
        PacketModel::PetChangeSkinMsg(_) => InternalPacketId::PetChangeSkinMsg,
        PacketModel::PetUpgradeRequest(_) => InternalPacketId::PetUpgradeRequest,
        PacketModel::PlayerHit(_) => InternalPacketId::PlayerHit,
        PacketModel::PlayerShoot(_) => InternalPacketId::PlayerShoot,
        PacketModel::PlayerText(_) => InternalPacketId::PlayerText,
        PacketModel::QuestRedeem(_) => InternalPacketId::QuestRedeem,
        PacketModel::QuestRoomMsg(_) => InternalPacketId::QuestRoomMsg,
        PacketModel::Pong(_) => InternalPacketId::Pong,
        PacketModel::RequestTrade(_) => InternalPacketId::RequestTrade,
        PacketModel::ResetDailyQuests(_) => InternalPacketId::ResetDailyQuests,
        PacketModel::Reskin(_) => InternalPacketId::Reskin,
        PacketModel::SetCondition(_) => InternalPacketId::SetCondition,
        PacketModel::ShootAck(_) => InternalPacketId::ShootAck,
        PacketModel::SquareHit(_) => InternalPacketId::SquareHit,
        PacketModel::Teleport(_) => InternalPacketId::Teleport,
        PacketModel::UpdateAck(_) => InternalPacketId::UpdateAck,
        PacketModel::UseItem(_) => InternalPacketId::UseItem,
        PacketModel::UsePortal(_) => InternalPacketId::UsePortal,
        PacketModel::QuestFetchAsk(_) => InternalPacketId::QuestFetchAsk,
        PacketModel::AcceptArenaDeath(_) => InternalPacketId::AcceptArenaDeath,
        PacketModel::AccountList(_) => InternalPacketId::AccountList,
        PacketModel::ActivePetUpdate(_) => InternalPacketId::ActivePetUpdate,
        PacketModel::AllyShoot(_) => InternalPacketId::AllyShoot,
        PacketModel::Aoe(_) => InternalPacketId::Aoe,
        PacketModel::ArenaDeath(_) => InternalPacketId::ArenaDeath,
        PacketModel::BuyResult(_) => InternalPacketId::BuyResult,
        PacketModel::ClientStat(_) => InternalPacketId::ClientStat,
        PacketModel::CreateSuccess(_) => InternalPacketId::CreateSuccess,
        PacketModel::Damage(_) => InternalPacketId::Damage,
        PacketModel::Death(_) => InternalPacketId::Death,
        PacketModel::DeletePet(_) => InternalPacketId::DeletePet,
        PacketModel::EnemyShoot(_) => InternalPacketId::EnemyShoot,
        PacketModel::EvolvePet(_) => InternalPacketId::EvolvePet,
        PacketModel::Failure(_) => InternalPacketId::Failure,
        PacketModel::File(_) => InternalPacketId::File,
        PacketModel::GlobalNotification(_) => InternalPacketId::GlobalNotification,
        PacketModel::Goto(_) => InternalPacketId::Goto,
        PacketModel::GuildResult(_) => InternalPacketId::GuildResult,
        PacketModel::HatchPet(_) => InternalPacketId::HatchPet,
        PacketModel::InvResult(_) => InternalPacketId::InvResult,
        PacketModel::InvitedToGuild(_) => InternalPacketId::InvitedToGuild,
        PacketModel::ImminentArenaWave(_) => InternalPacketId::ImminentArenaWave,
        PacketModel::KeyInfoResponse(_) => InternalPacketId::KeyInfoResponse,
        PacketModel::LoginRewardMsg(_) => InternalPacketId::LoginRewardMsg,
        PacketModel::MapInfo(_) => InternalPacketId::MapInfo,
        PacketModel::NameResult(_) => InternalPacketId::NameResult,
        PacketModel::NewAbility(_) => InternalPacketId::NewAbility,
        PacketModel::NewTick(_) => InternalPacketId::NewTick,
        PacketModel::Notification(_) => InternalPacketId::Notification,
        PacketModel::PasswordPrompt(_) => InternalPacketId::PasswordPrompt,
        PacketModel::PetYardUpdate(_) => InternalPacketId::PetYardUpdate,
        PacketModel::Pic(_) => InternalPacketId::Pic,
        PacketModel::Ping(_) => InternalPacketId::Ping,
        PacketModel::PlaySound(_) => InternalPacketId::PlaySound,
        PacketModel::QuestObjId(_) => InternalPacketId::QuestObjId,
        PacketModel::QuestFetchResponse(_) => InternalPacketId::QuestFetchResponse,
        PacketModel::QuestRedeemResponse(_) => InternalPacketId::QuestRedeemResponse,
        PacketModel::RealmHeroLeftMsg(_) => InternalPacketId::RealmHeroLeftMsg,
        PacketModel::Reconnect(_) => InternalPacketId::Reconnect,
        PacketModel::ReskinUnlock(_) => InternalPacketId::ReskinUnlock,
        PacketModel::ServerPlayerShoot(_) => InternalPacketId::ServerPlayerShoot,
        PacketModel::ShowEffect(_) => InternalPacketId::ShowEffect,
        PacketModel::Text(_) => InternalPacketId::Text,
        PacketModel::TradeAccepted(_) => InternalPacketId::TradeAccepted,
        PacketModel::TradeChanged(_) => InternalPacketId::TradeChanged,
        PacketModel::TradeDone(_) => InternalPacketId::TradeDone,
        PacketModel::TradeRequested(_) => InternalPacketId::TradeRequested,
        PacketModel::TradeStart(_) => InternalPacketId::TradeStart,
        PacketModel::Update(_) => InternalPacketId::Update,
        PacketModel::VerifyEmail(_) => InternalPacketId::VerifyEmail,
    }
}

/// Whether messages of this variant are sent by the server.
pub open spec fn is_server_id(id: InternalPacketId) -> bool {
    match id {
        InternalPacketId::AcceptTrade => false,
        InternalPacketId::ActivePetUpdateRequest => false,
        InternalPacketId::AoeAck => false,
        InternalPacketId::Buy => false,
        InternalPacketId::CancelTrade => false,
        InternalPacketId::ChangeGuildRank => false,
        InternalPacketId::ChangeTrade => false,
        InternalPacketId::CheckCredits => false,
        InternalPacketId::ChooseName => false,
        InternalPacketId::ClaimLoginRewardMsg => false,
        InternalPacketId::Create => false,
        InternalPacketId::CreateGuild => false,
        InternalPacketId::EditAccountList => false,
        InternalPacketId::EnemyHit => false,
        InternalPacketId::EnterArena => false,
        InternalPacketId::Escape => false,
        InternalPacketId::GotoAck => false,
        InternalPacketId::GroundDamage => false,
        InternalPacketId::GuildInvite => false,
        InternalPacketId::GuildRemove => false,
        InternalPacketId::Hello => false,
        InternalPacketId::InvDrop => false,
        InternalPacketId::InvSwap => false,
        InternalPacketId::JoinGuild => false,
        InternalPacketId::KeyInfoRequest => false,
        InternalPacketId::Load => false,
        InternalPacketId::Move => false,
        InternalPacketId::OtherHit => false,
        InternalPacketId::PetChangeFormMsg => false,
        InternalPacketId::PetChangeSkinMsg => false,
        InternalPacketId::PetUpgradeRequest => false,
        InternalPacketId::PlayerHit => false,
        InternalPacketId::PlayerShoot => false,
        InternalPacketId::PlayerText => false,
        InternalPacketId::QuestRedeem => false,
        InternalPacketId::QuestRoomMsg => false,
        InternalPacketId::Pong => false,
        InternalPacketId::RequestTrade => false,
        InternalPacketId::ResetDailyQuests => false,
        InternalPacketId::Reskin => false,
        InternalPacketId::SetCondition => false,
        InternalPacketId::ShootAck => false,
        InternalPacketId::SquareHit => false,
        InternalPacketId::Teleport => false,
        InternalPacketId::UpdateAck => false,
        InternalPacketId::UseItem => false,
        InternalPacketId::UsePortal => false,
        InternalPacketId::QuestFetchAsk => false,
        InternalPacketId::AcceptArenaDeath => false,
        InternalPacketId::AccountList => true,
        InternalPacketId::ActivePetUpdate => true,
        InternalPacketId::AllyShoot => true,
        InternalPacketId::Aoe => true,
        InternalPacketId::ArenaDeath => true,
        InternalPacketId::BuyResult => true,
        InternalPacketId::ClientStat => true,
        InternalPacketId::CreateSuccess => true,
        InternalPacketId::Damage => true,
        InternalPacketId::Death => true,
        InternalPacketId::DeletePet => true,
        InternalPacketId::EnemyShoot => true,
        InternalPacketId::EvolvePet => true,
        InternalPacketId::Failure => true,
        InternalPacketId::File => true,
        InternalPacketId::GlobalNotification => true,
        InternalPacketId::Goto => true,
        InternalPacketId::GuildResult => true,
        InternalPacketId::HatchPet => true,
        InternalPacketId::InvResult => true,
        InternalPacketId::InvitedToGuild => true,
        InternalPacketId::ImminentArenaWave => true,
        InternalPacketId::KeyInfoResponse => true,
        InternalPacketId::LoginRewardMsg => true,
        InternalPacketId::MapInfo => true,
        InternalPacketId::NameResult => true,
        InternalPacketId::NewAbility => true,
        InternalPacketId::NewTick => true,
        InternalPacketId::Notification => true,
        InternalPacketId::PasswordPrompt => true,
        InternalPacketId::PetYardUpdate => true,
        InternalPacketId::Pic => true,
        InternalPacketId::Ping => true,
        InternalPacketId::PlaySound => true,
        InternalPacketId::QuestObjId => true,
        InternalPacketId::QuestFetchResponse => true,
        InternalPacketId::QuestRedeemResponse => true,
        InternalPacketId::RealmHeroLeftMsg => true,
        InternalPacketId::Reconnect => true,
        InternalPacketId::ReskinUnlock => true,
        InternalPacketId::ServerPlayerShoot => true,
        InternalPacketId::ShowEffect => true,
        InternalPacketId::Text => true,
        InternalPacketId::TradeAccepted => true,
        InternalPacketId::TradeChanged => true,
        InternalPacketId::TradeDone => true,
        InternalPacketId::TradeRequested => true,
        InternalPacketId::TradeStart => true,
        InternalPacketId::Update => true,
        InternalPacketId::VerifyEmail => true,
    }
}

/// The exact outcome of decoding a payload as the variant named by `id`.
#[verifier::opaque]
pub open spec fn dec_packet(id: InternalPacketId, b: Seq<u8>) -> Result<(PacketModel, int), Error> {
    match id {
        InternalPacketId::AcceptTrade => match <AcceptTrade as NetworkAdapter>::dec(b) {
            Ok((m, u)) => Ok((PacketModel::AcceptTrade(m), u)),
            Err(e) => Err(e),
        },
        InternalPacketId::ActivePetUpdateRequest => match <ActivePetUpdateRequest as NetworkAdapter>::dec(b) {
            Ok((m, u)) => Ok((PacketModel::ActivePetUpdateRequest(m), u)),
            Err(e) => Err(e),
        },
        InternalPacketId::AoeAck => match <AoeAck as NetworkAdapter>::dec(b) {
            Ok((m, u)) => Ok((PacketModel::AoeAck(m), u)),
            Err(e) => Err(e),
        },
        InternalPacketId::Buy => match <Buy as NetworkAdapter>::dec(b) {
            Ok((m, u)) => Ok((PacketModel::Buy(m), u)),
            Err(e) => Err(e),
        },
        InternalPacketId::CancelTrade => match <CancelTrade as NetworkAdapter>::dec(b) {
            Ok((m, u)) => Ok((PacketModel::CancelTrade(m), u)),
            Err(e) => Err(e),
        },
        InternalPacketId::ChangeGuildRank => match <ChangeGuildRank as NetworkAdapter>::dec(b) {
            Ok((m, u)) => Ok((PacketModel::ChangeGuildRank(m), u)),
            Err(e) => Err(e),
        },
        InternalPacketId::ChangeTrade => match <ChangeTrade as NetworkAdapter>::dec(b) {
            Ok((m, u)) => Ok((PacketModel::ChangeTrade(m), u)),
            Err(e) => Err(e),
        },
        InternalPacketId::CheckCredits => match <CheckCredits as NetworkAdapter>::dec(b) {
            Ok((m, u)) => Ok((PacketModel::CheckCredits(m), u)),
            Err(e) => Err(e),
        },
        InternalPacketId::ChooseName => match <ChooseName as NetworkAdapter>::dec(b) {
            Ok((m, u)) => Ok((PacketModel::ChooseName(m), u)),
            Err(e) => Err(e),
        },
        InternalPacketId::ClaimLoginRewardMsg => match <ClaimLoginRewardMsg as NetworkAdapter>::dec(b) {
            Ok((m, u)) => Ok((PacketModel::ClaimLoginRewardMsg(m), u)),
            Err(e) => Err(e),
        },
        InternalPacketId::Create => match <Create as NetworkAdapter>::dec(b) {
            Ok((m, u)) => Ok((PacketModel::Create(m), u)),
            Err(e) => Err(e),
        },
        InternalPacketId::CreateGuild => match <CreateGuild as NetworkAdapter>::dec(b) {
            Ok((m, u)) => Ok((PacketModel::CreateGuild(m), u)),
            Err(e) => Err(e),
        },
        InternalPacketId::EditAccountList => match <EditAccountList as NetworkAdapter>::dec(b) {
            Ok((m, u)) => Ok((PacketModel::EditAccountList(m), u)),
            Err(e) => Err(e),
        },
        InternalPacketId::EnemyHit => match <EnemyHit as NetworkAdapter>::dec(b) {
            Ok((m, u)) => Ok((PacketModel::EnemyHit(m), u)),
            Err(e) => Err(e),
        },
        InternalPacketId::EnterArena => match <EnterArena as NetworkAdapter>::dec(b) {
            Ok((m, u)) => Ok((PacketModel::EnterArena(m), u)),
            Err(e) => Err(e),
        },
        InternalPacketId::Escape => match <Escape as NetworkAdapter>::dec(b) {
            Ok((m, u)) => Ok((PacketModel::Escape(m), u)),
            Err(e) => Err(e),
        },
        InternalPacketId::GotoAck => match <GotoAck as NetworkAdapter>::dec(b) {
            Ok((m, u)) => Ok((PacketModel::GotoAck(m), u)),
            Err(e) => Err(e),
        },
        InternalPacketId::GroundDamage => match <GroundDamage as NetworkAdapter>::dec(b) {
            Ok((m, u)) => Ok((PacketModel::GroundDamage(m), u)),
            Err(e) => Err(e),
        },
        InternalPacketId::GuildInvite => match <GuildInvite as NetworkAdapter>::dec(b) {
            Ok((m, u)) => Ok((PacketModel::GuildInvite(m), u)),
            Err(e) => Err(e),
        },
        InternalPacketId::GuildRemove => match <GuildRemove as NetworkAdapter>::dec(b) {
            Ok((m, u)) => Ok((PacketModel::GuildRemove(m), u)),
            Err(e) => Err(e),
        },
        InternalPacketId::Hello => match <Hello as NetworkAdapter>::dec(b) {
            Ok((m, u)) => Ok((PacketModel::Hello(m), u)),
            Err(e) => Err(e),
        },
        InternalPacketId::InvDrop => match <InvDrop as NetworkAdapter>::dec(b) {
            Ok((m, u)) => Ok((PacketModel::InvDrop(m), u)),
            Err(e) => Err(e),
        },
        InternalPacketId::InvSwap => match <InvSwap as NetworkAdapter>::dec(b) {
            Ok((m, u)) => Ok((PacketModel::InvSwap(m), u)),
            Err(e) => Err(e),
        },
        InternalPacketId::JoinGuild => match <JoinGuild as NetworkAdapter>::dec(b) {
            Ok((m, u)) => Ok((PacketModel::JoinGuild(m), u)),
            Err(e) => Err(e),
        },
        InternalPacketId::KeyInfoRequest => match <KeyInfoRequest as NetworkAdapter>::dec(b) {
            Ok((m, u)) => Ok((PacketModel::KeyInfoRequest(m), u)),
            Err(e) => Err(e),
        },
        InternalPacketId::Load => match <Load as NetworkAdapter>::dec(b) {
            Ok((m, u)) => Ok((PacketModel::Load(m), u)),
            Err(e) => Err(e),
        },
        InternalPacketId::Move => match <Move as NetworkAdapter>::dec(b) {
            Ok((m, u)) => Ok((PacketModel::Move(m), u)),
            Err(e) => Err(e),
        },
        InternalPacketId::OtherHit => match <OtherHit as NetworkAdapter>::dec(b) {
            Ok((m, u)) => Ok((PacketModel::OtherHit(m), u)),
            Err(e) => Err(e),
        },
        InternalPacketId::PetChangeFormMsg => match <PetChangeFormMsg as NetworkAdapter>::dec(b) {
            Ok((m, u)) => Ok((PacketModel::PetChangeFormMsg(m), u)),
            Err(e) => Err(e),
        },
        InternalPacketId::PetChangeSkinMsg => match <PetChangeSkinMsg as NetworkAdapter>::dec(b) {
            Ok((m, u)) => Ok((PacketModel::PetChangeSkinMsg(m), u)),
            Err(e) => Err(e),
        },
        InternalPacketId::PetUpgradeRequest => match <PetUpgradeRequest as NetworkAdapter>::dec(b) {
            Ok((m, u)) => Ok((PacketModel::PetUpgradeRequest(m), u)),
            Err(e) => Err(e),
        },
        InternalPacketId::PlayerHit => match <PlayerHit as NetworkAdapter>::dec(b) {
            Ok((m, u)) => Ok((PacketModel::PlayerHit(m), u)),
            Err(e) => Err(e),
        },
        InternalPacketId::PlayerShoot => match <PlayerShoot as NetworkAdapter>::dec(b) {
            Ok((m, u)) => Ok((PacketModel::PlayerShoot(m), u)),
            Err(e) => Err(e),
        },
        InternalPacketId::PlayerText => match <PlayerText as NetworkAdapter>::dec(b) {
            Ok((m, u)) => Ok((PacketModel::PlayerText(m), u)),
            Err(e) => Err(e),
        },
        InternalPacketId::QuestRedeem => match <QuestRedeem as NetworkAdapter>::dec(b) {
            Ok((m, u)) => Ok((PacketModel::QuestRedeem(m), u)),
            Err(e) => Err(e),
        },
        InternalPacketId::QuestRoomMsg => match <QuestRoomMsg as NetworkAdapter>::dec(b) {
            Ok((m, u)) => Ok((PacketModel::QuestRoomMsg(m), u)),
            Err(e) => Err(e),
        },
        InternalPacketId::Pong => match <Pong as NetworkAdapter>::dec(b) {
            Ok((m, u)) => Ok((PacketModel::Pong(m), u)),
            Err(e) => Err(e),
        },
        InternalPacketId::RequestTrade => match <RequestTrade as NetworkAdapter>::dec(b) {
            Ok((m, u)) => Ok((PacketModel::RequestTrade(m), u)),
            Err(e) => Err(e),
        },
        InternalPacketId::ResetDailyQuests => match <ResetDailyQuests as NetworkAdapter>::dec(b) {
            Ok((m, u)) => Ok((PacketModel::ResetDailyQuests(m), u)),
            Err(e) => Err(e),
        },
        InternalPacketId::Reskin => match <Reskin as NetworkAdapter>::dec(b) {
            Ok((m, u)) => Ok((PacketModel::Reskin(m), u)),
            Err(e) => Err(e),
        },
        InternalPacketId::SetCondition => match <SetCondition as NetworkAdapter>::dec(b) {
            Ok((m, u)) => Ok((PacketModel::SetCondition(m), u)),
            Err(e) => Err(e),
        },
        InternalPacketId::ShootAck => match <ShootAck as NetworkAdapter>::dec(b) {
            Ok((m, u)) => Ok((PacketModel::ShootAck(m), u)),
            Err(e) => Err(e),
        },
        InternalPacketId::SquareHit => match <SquareHit as NetworkAdapter>::dec(b) {
            Ok((m, u)) => Ok((PacketModel::SquareHit(m), u)),
            Err(e) => Err(e),
        },
        InternalPacketId::Teleport => match <Teleport as NetworkAdapter>::dec(b) {
            Ok((m, u)) => Ok((PacketModel::Teleport(m), u)),
            Err(e) => Err(e),
        },
        InternalPacketId::UpdateAck => match <UpdateAck as NetworkAdapter>::dec(b) {
            Ok((m, u)) => Ok((PacketModel::UpdateAck(m), u)),
            Err(e) => Err(e),
        },
        InternalPacketId::UseItem => match <UseItem as NetworkAdapter>::dec(b) {
            Ok((m, u)) => Ok((PacketModel::UseItem(m), u)),
            Err(e) => Err(e),
        },
        InternalPacketId::UsePortal => match <UsePortal as NetworkAdapter>::dec(b) {
            Ok((m, u)) => Ok((PacketModel::UsePortal(m), u)),
            Err(e) => Err(e),
        },
        InternalPacketId::QuestFetchAsk => match <QuestFetchAsk as NetworkAdapter>::dec(b) {
            Ok((m, u)) => Ok((PacketModel::QuestFetchAsk(m), u)),
            Err(e) => Err(e),
        },
        InternalPacketId::AcceptArenaDeath => match <AcceptArenaDeath as NetworkAdapter>::dec(b) {
            Ok((m, u)) => Ok((PacketModel::AcceptArenaDeath(m), u)),
            Err(e) => Err(e),
        },
        InternalPacketId::AccountList => match <AccountList as NetworkAdapter>::dec(b) {
            Ok((m, u)) => Ok((PacketModel::AccountList(m), u)),
            Err(e) => Err(e),
        },
        InternalPacketId::ActivePetUpdate => match <ActivePetUpdate as NetworkAdapter>::dec(b) {
            Ok((m, u)) => Ok((PacketModel::ActivePetUpdate(m), u)),
            Err(e) => Err(e),
        },
        InternalPacketId::AllyShoot => match <AllyShoot as NetworkAdapter>::dec(b) {
            Ok((m, u)) => Ok((PacketModel::AllyShoot(m), u)),
            Err(e) => Err(e),
        },
        InternalPacketId::Aoe => match <Aoe as NetworkAdapter>::dec(b) {
            Ok((m, u)) => Ok((PacketModel::Aoe(m), u)),
            Err(e) => Err(e),
        },
        InternalPacketId::ArenaDeath => match <ArenaDeath as NetworkAdapter>::dec(b) {
            Ok((m, u)) => Ok((PacketModel::ArenaDeath(m), u)),
            Err(e) => Err(e),
        },
        InternalPacketId::BuyResult => match <BuyResult as NetworkAdapter>::dec(b) {
            Ok((m, u)) => Ok((PacketModel::BuyResult(m), u)),
            Err(e) => Err(e),
        },
        InternalPacketId::ClientStat => match <ClientStat as NetworkAdapter>::dec(b) {
            Ok((m, u)) => Ok((PacketModel::ClientStat(m), u)),
            Err(e) => Err(e),
        },
        InternalPacketId::CreateSuccess => match <CreateSuccess as NetworkAdapter>::dec(b) {
            Ok((m, u)) => Ok((PacketModel::CreateSuccess(m), u)),
            Err(e) => Err(e),
        },
        InternalPacketId::Damage => match <Damage as NetworkAdapter>::dec(b) {
            Ok((m, u)) => Ok((PacketModel::Damage(m), u)),
            Err(e) => Err(e),
        },
        InternalPacketId::Death => match <Death as NetworkAdapter>::dec(b) {
            Ok((m, u)) => Ok((PacketModel::Death(m), u)),
            Err(e) => Err(e),
        },
        InternalPacketId::DeletePet => match <DeletePet as NetworkAdapter>::dec(b) {
            Ok((m, u)) => Ok((PacketModel::DeletePet(m), u)),
            Err(e) => Err(e),
        },
        InternalPacketId::EnemyShoot => match enemy_shoot_dec(b) {
            Ok((m, u)) => Ok((PacketModel::EnemyShoot(m), u)),
            Err(e) => Err(e),
        },
        InternalPacketId::EvolvePet => match <EvolvePet as NetworkAdapter>::dec(b) {
            Ok((m, u)) => Ok((PacketModel::EvolvePet(m), u)),
            Err(e) => Err(e),
        },
        InternalPacketId::Failure => match <Failure as NetworkAdapter>::dec(b) {
            Ok((m, u)) => Ok((PacketModel::Failure(m), u)),
            Err(e) => Err(e),
        },
        InternalPacketId::File => match <File as NetworkAdapter>::dec(b) {
            Ok((m, u)) => Ok((PacketModel::File(m), u)),
            Err(e) => Err(e),
        },
        InternalPacketId::GlobalNotification => match <GlobalNotification as NetworkAdapter>::dec(b) {
            Ok((m, u)) => Ok((PacketModel::GlobalNotification(m), u)),
            Err(e) => Err(e),
        },
        InternalPacketId::Goto => match <Goto as NetworkAdapter>::dec(b) {
            Ok((m, u)) => Ok((PacketModel::Goto(m), u)),
            Err(e) => Err(e),
        },
        InternalPacketId::GuildResult => match <GuildResult as NetworkAdapter>::dec(b) {
            Ok((m, u)) => Ok((PacketModel::GuildResult(m), u)),
            Err(e) => Err(e),
        },
        InternalPacketId::HatchPet => match <HatchPet as NetworkAdapter>::dec(b) {
            Ok((m, u)) => Ok((PacketModel::HatchPet(m), u)),
            Err(e) => Err(e),
        },
        InternalPacketId::InvResult => match <InvResult as NetworkAdapter>::dec(b) {
            Ok((m, u)) => Ok((PacketModel::InvResult(m), u)),
            Err(e) => Err(e),
        },
        InternalPacketId::InvitedToGuild => match <InvitedToGuild as NetworkAdapter>::dec(b) {
            Ok((m, u)) => Ok((PacketModel::InvitedToGuild(m), u)),
            Err(e) => Err(e),
        },
        InternalPacketId::ImminentArenaWave => match <ImminentArenaWave as NetworkAdapter>::dec(b) {
            Ok((m, u)) => Ok((PacketModel::ImminentArenaWave(m), u)),
            Err(e) => Err(e),
        },
        InternalPacketId::KeyInfoResponse => match <KeyInfoResponse as NetworkAdapter>::dec(b) {
            Ok((m, u)) => Ok((PacketModel::KeyInfoResponse(m), u)),
            Err(e) => Err(e),
        },
        InternalPacketId::LoginRewardMsg => match <LoginRewardMsg as NetworkAdapter>::dec(b) {
            Ok((m, u)) => Ok((PacketModel::LoginRewardMsg(m), u)),
            Err(e) => Err(e),
        },
        InternalPacketId::MapInfo => match <MapInfo as NetworkAdapter>::dec(b) {
            Ok((m, u)) => Ok((PacketModel::MapInfo(m), u)),
            Err(e) => Err(e),
        },
        InternalPacketId::NameResult => match <NameResult as NetworkAdapter>::dec(b) {
            Ok((m, u)) => Ok((PacketModel::NameResult(m), u)),
            Err(e) => Err(e),
        },
        InternalPacketId::NewAbility => match <NewAbility as NetworkAdapter>::dec(b) {
            Ok((m, u)) => Ok((PacketModel::NewAbility(m), u)),
            Err(e) => Err(e),
        },
        InternalPacketId::NewTick => match <NewTick as NetworkAdapter>::dec(b) {
            Ok((m, u)) => Ok((PacketModel::NewTick(m), u)),
            Err(e) => Err(e),
        },
        InternalPacketId::Notification => match <Notification as NetworkAdapter>::dec(b) {
            Ok((m, u)) => Ok((PacketModel::Notification(m), u)),
            Err(e) => Err(e),
        },
        InternalPacketId::PasswordPrompt => match <PasswordPrompt as NetworkAdapter>::dec(b) {
            Ok((m, u)) => Ok((PacketModel::PasswordPrompt(m), u)),
            Err(e) => Err(e),
        },
        InternalPacketId::PetYardUpdate => match <PetYardUpdate as NetworkAdapter>::dec(b) {
            Ok((m, u)) => Ok((PacketModel::PetYardUpdate(m), u)),
            Err(e) => Err(e),
        },
        InternalPacketId::Pic => match <Pic as NetworkAdapter>::dec(b) {
            Ok((m, u)) => Ok((PacketModel::Pic(m), u)),
            Err(e) => Err(e),
        },
        InternalPacketId::Ping => match <Ping as NetworkAdapter>::dec(b) {
            Ok((m, u)) => Ok((PacketModel::Ping(m), u)),
            Err(e) => Err(e),
        },
        InternalPacketId::PlaySound => match <PlaySound as NetworkAdapter>::dec(b) {
            Ok((m, u)) => Ok((PacketModel::PlaySound(m), u)),
            Err(e) => Err(e),
        },
        InternalPacketId::QuestObjId => match <QuestObjId as NetworkAdapter>::dec(b) {
            Ok((m, u)) => Ok((PacketModel::QuestObjId(m), u)),
            Err(e) => Err(e),
        },
        InternalPacketId::QuestFetchResponse => match <QuestFetchResponse as NetworkAdapter>::dec(b) {
            Ok((m, u)) => Ok((PacketModel::QuestFetchResponse(m), u)),
            Err(e) => Err(e),
        },
        InternalPacketId::QuestRedeemResponse => match <QuestRedeemResponse as NetworkAdapter>::dec(b) {
            Ok((m, u)) => Ok((PacketModel::QuestRedeemResponse(m), u)),
            Err(e) => Err(e),
        },
        InternalPacketId::RealmHeroLeftMsg => match <RealmHeroLeftMsg as NetworkAdapter>::dec(b) {
            Ok((m, u)) => Ok((PacketModel::RealmHeroLeftMsg(m), u)),
            Err(e) => Err(e),
        },
        InternalPacketId::Reconnect => match <Reconnect as NetworkAdapter>::dec(b) {
            Ok((m, u)) => Ok((PacketModel::Reconnect(m), u)),
            Err(e) => Err(e),
        },
        InternalPacketId::ReskinUnlock => match <ReskinUnlock as NetworkAdapter>::dec(b) {
            Ok((m, u)) => Ok((PacketModel::ReskinUnlock(m), u)),
            Err(e) => Err(e),
        },
        InternalPacketId::ServerPlayerShoot => match <ServerPlayerShoot as NetworkAdapter>::dec(b) {
            Ok((m, u)) => Ok((PacketModel::ServerPlayerShoot(m), u)),
            Err(e) => Err(e),
        },
        InternalPacketId::ShowEffect => match <ShowEffect as NetworkAdapter>::dec(b) {
            Ok((m, u)) => Ok((PacketModel::ShowEffect(m), u)),
            Err(e) => Err(e),
        },
        InternalPacketId::Text => match <Text as NetworkAdapter>::dec(b) {
            Ok((m, u)) => Ok((PacketModel::Text(m), u)),
            Err(e) => Err(e),
        },
        InternalPacketId::TradeAccepted => match <TradeAccepted as NetworkAdapter>::dec(b) {
            Ok((m, u)) => Ok((PacketModel::TradeAccepted(m), u)),
            Err(e) => Err(e),
        },
        InternalPacketId::TradeChanged => match <TradeChanged as NetworkAdapter>::dec(b) {
            Ok((m, u)) => Ok((PacketModel::TradeChanged(m), u)),
            Err(e) => Err(e),
        },
        InternalPacketId::TradeDone => match <TradeDone as NetworkAdapter>::dec(b) {
            Ok((m, u)) => Ok((PacketModel::TradeDone(m), u)),
            Err(e) => Err(e),
        },
        InternalPacketId::TradeRequested => match <TradeRequested as NetworkAdapter>::dec(b) {
            Ok((m, u)) => Ok((PacketModel::TradeRequested(m), u)),
            Err(e) => Err(e),
        },
        InternalPacketId::TradeStart => match <TradeStart as NetworkAdapter>::dec(b) {
            Ok((m, u)) => Ok((PacketModel::TradeStart(m), u)),
            Err(e) => Err(e),
        },
        InternalPacketId::Update => match <Update as NetworkAdapter>::dec(b) {
            Ok((m, u)) => Ok((PacketModel::Update(m), u)),
            Err(e) => Err(e),
        },
        InternalPacketId::VerifyEmail => match <VerifyEmail as NetworkAdapter>::dec(b) {
            Ok((m, u)) => Ok((PacketModel::VerifyEmail(m), u)),
            Err(e) => Err(e),
        },
    }
}

/// The payload bytes a packet model encodes to.
#[verifier::opaque]
pub open spec fn enc_packet(m: PacketModel) -> Seq<u8> {
    match m {
        PacketModel::AcceptTrade(x) => <AcceptTrade as NetworkAdapter>::enc_model(x),
        PacketModel::ActivePetUpdateRequest(x) => <ActivePetUpdateRequest as NetworkAdapter>::enc_model(x),
        PacketModel::AoeAck(x) => <AoeAck as NetworkAdapter>::enc_model(x),
        PacketModel::Buy(x) => <Buy as NetworkAdapter>::enc_model(x),
        PacketModel::CancelTrade(x) => <CancelTrade as NetworkAdapter>::enc_model(x),
        PacketModel::ChangeGuildRank(x) => <ChangeGuildRank as NetworkAdapter>::enc_model(x),
        PacketModel::ChangeTrade(x) => <ChangeTrade as NetworkAdapter>::enc_model(x),
        PacketModel::CheckCredits(x) => <CheckCredits as NetworkAdapter>::enc_model(x),
        PacketModel::ChooseName(x) => <ChooseName as NetworkAdapter>::enc_model(x),
        PacketModel::ClaimLoginRewardMsg(x) => <ClaimLoginRewardMsg as NetworkAdapter>::enc_model(x),
        PacketModel::Create(x) => <Create as NetworkAdapter>::enc_model(x),
        PacketModel::CreateGuild(x) => <CreateGuild as NetworkAdapter>::enc_model(x),
        PacketModel::EditAccountList(x) => <EditAccountList as NetworkAdapter>::enc_model(x),
        PacketModel::EnemyHit(x) => <EnemyHit as NetworkAdapter>::enc_model(x),
        PacketModel::EnterArena(x) => <EnterArena as NetworkAdapter>::enc_model(x),
        PacketModel::Escape(x) => <Escape as NetworkAdapter>::enc_model(x),
        PacketModel::GotoAck(x) => <GotoAck as NetworkAdapter>::enc_model(x),
        PacketModel::GroundDamage(x) => <GroundDamage as NetworkAdapter>::enc_model(x),
        PacketModel::GuildInvite(x) => <GuildInvite as NetworkAdapter>::enc_model(x),
        PacketModel::GuildRemove(x) => <GuildRemove as NetworkAdapter>::enc_model(x),
        PacketModel::Hello(x) => <Hello as NetworkAdapter>::enc_model(x),
        PacketModel::InvDrop(x) => <InvDrop as NetworkAdapter>::enc_model(x),
        PacketModel::InvSwap(x) => <InvSwap as NetworkAdapter>::enc_model(x),
        PacketModel::JoinGuild(x) => <JoinGuild as NetworkAdapter>::enc_model(x),
        PacketModel::KeyInfoRequest(x) => <KeyInfoRequest as NetworkAdapter>::enc_model(x),
        PacketModel::Load(x) => <Load as NetworkAdapter>::enc_model(x),
        PacketModel::Move(x) => <Move as NetworkAdapter>::enc_model(x),
        PacketModel::OtherHit(x) => <OtherHit as NetworkAdapter>::enc_model(x),
        PacketModel::PetChangeFormMsg(x) => <PetChangeFormMsg as NetworkAdapter>::enc_model(x),
        PacketModel::PetChangeSkinMsg(x) => <PetChangeSkinMsg as NetworkAdapter>::enc_model(x),
        PacketModel::PetUpgradeRequest(x) => <PetUpgradeRequest as NetworkAdapter>::enc_model(x),
        PacketModel::PlayerHit(x) => <PlayerHit as NetworkAdapter>::enc_model(x),
        PacketModel::PlayerShoot(x) => <PlayerShoot as NetworkAdapter>::enc_model(x),
        PacketModel::PlayerText(x) => <PlayerText as NetworkAdapter>::enc_model(x),
        PacketModel::QuestRedeem(x) => <QuestRedeem as NetworkAdapter>::enc_model(x),
        PacketModel::QuestRoomMsg(x) => <QuestRoomMsg as NetworkAdapter>::enc_model(x),
        PacketModel::Pong(x) => <Pong as NetworkAdapter>::enc_model(x),
        PacketModel::RequestTrade(x) => <RequestTrade as NetworkAdapter>::enc_model(x),
        PacketModel::ResetDailyQuests(x) => <ResetDailyQuests as NetworkAdapter>::enc_model(x),
        PacketModel::Reskin(x) => <Reskin as NetworkAdapter>::enc_model(x),
        PacketModel::SetCondition(x) => <SetCondition as NetworkAdapter>::enc_model(x),
        PacketModel::ShootAck(x) => <ShootAck as NetworkAdapter>::enc_model(x),
        PacketModel::SquareHit(x) => <SquareHit as NetworkAdapter>::enc_model(x),
        PacketModel::Teleport(x) => <Teleport as NetworkAdapter>::enc_model(x),
        PacketModel::UpdateAck(x) => <UpdateAck as NetworkAdapter>::enc_model(x),
        PacketModel::UseItem(x) => <UseItem as NetworkAdapter>::enc_model(x),
        PacketModel::UsePortal(x) => <UsePortal as NetworkAdapter>::enc_model(x),
        PacketModel::QuestFetchAsk(x) => <QuestFetchAsk as NetworkAdapter>::enc_model(x),
        PacketModel::AcceptArenaDeath(x) => <AcceptArenaDeath as NetworkAdapter>::enc_model(x),
        PacketModel::AccountList(x) => <AccountList as NetworkAdapter>::enc_model(x),
        PacketModel::ActivePetUpdate(x) => <ActivePetUpdate as NetworkAdapter>::enc_model(x),
        PacketModel::AllyShoot(x) => <AllyShoot as NetworkAdapter>::enc_model(x),
        PacketModel::Aoe(x) => <Aoe as NetworkAdapter>::enc_model(x),
        PacketModel::ArenaDeath(x) => <ArenaDeath as NetworkAdapter>::enc_model(x),
        PacketModel::BuyResult(x) => <BuyResult as NetworkAdapter>::enc_model(x),
        PacketModel::ClientStat(x) => <ClientStat as NetworkAdapter>::enc_model(x),
        PacketModel::CreateSuccess(x) => <CreateSuccess as NetworkAdapter>::enc_model(x),
        PacketModel::Damage(x) => <Damage as NetworkAdapter>::enc_model(x),
        PacketModel::Death(x) => <Death as NetworkAdapter>::enc_model(x),
        PacketModel::DeletePet(x) => <DeletePet as NetworkAdapter>::enc_model(x),
        PacketModel::EnemyShoot(x) => enemy_shoot_enc(x),
        PacketModel::EvolvePet(x) => <EvolvePet as NetworkAdapter>::enc_model(x),
        PacketModel::Failure(x) => <Failure as NetworkAdapter>::enc_model(x),
        PacketModel::File(x) => <File as NetworkAdapter>::enc_model(x),
        PacketModel::GlobalNotification(x) => <GlobalNotification as NetworkAdapter>::enc_model(x),
        PacketModel::Goto(x) => <Goto as NetworkAdapter>::enc_model(x),
        PacketModel::GuildResult(x) => <GuildResult as NetworkAdapter>::enc_model(x),
        PacketModel::HatchPet(x) => <HatchPet as NetworkAdapter>::enc_model(x),
        PacketModel::InvResult(x) => <InvResult as NetworkAdapter>::enc_model(x),
        PacketModel::InvitedToGuild(x) => <InvitedToGuild as NetworkAdapter>::enc_model(x),
        PacketModel::ImminentArenaWave(x) => <ImminentArenaWave as NetworkAdapter>::enc_model(x),
        PacketModel::KeyInfoResponse(x) => <KeyInfoResponse as NetworkAdapter>::enc_model(x),
        PacketModel::LoginRewardMsg(x) => <LoginRewardMsg as NetworkAdapter>::enc_model(x),
        PacketModel::MapInfo(x) => <MapInfo as NetworkAdapter>::enc_model(x),
        PacketModel::NameResult(x) => <NameResult as NetworkAdapter>::enc_model(x),
        PacketModel::NewAbility(x) => <NewAbility as NetworkAdapter>::enc_model(x),
        PacketModel::NewTick(x) => <NewTick as NetworkAdapter>::enc_model(x),
        PacketModel::Notification(x) => <Notification as NetworkAdapter>::enc_model(x),
        PacketModel::PasswordPrompt(x) => <PasswordPrompt as NetworkAdapter>::enc_model(x),
        PacketModel::PetYardUpdate(x) => <PetYardUpdate as NetworkAdapter>::enc_model(x),
        PacketModel::Pic(x) => <Pic as NetworkAdapter>::enc_model(x),
        PacketModel::Ping(x) => <Ping as NetworkAdapter>::enc_model(x),
        PacketModel::PlaySound(x) => <PlaySound as NetworkAdapter>::enc_model(x),
        PacketModel::QuestObjId(x) => <QuestObjId as NetworkAdapter>::enc_model(x),
        PacketModel::QuestFetchResponse(x) => <QuestFetchResponse as NetworkAdapter>::enc_model(x),
        PacketModel::QuestRedeemResponse(x) => <QuestRedeemResponse as NetworkAdapter>::enc_model(x),
        PacketModel::RealmHeroLeftMsg(x) => <RealmHeroLeftMsg as NetworkAdapter>::enc_model(x),
        PacketModel::Reconnect(x) => <Reconnect as NetworkAdapter>::enc_model(x),
        PacketModel::ReskinUnlock(x) => <ReskinUnlock as NetworkAdapter>::enc_model(x),
        PacketModel::ServerPlayerShoot(x) => <ServerPlayerShoot as NetworkAdapter>::enc_model(x),
        PacketModel::ShowEffect(x) => <ShowEffect as NetworkAdapter>::enc_model(x),
        PacketModel::Text(x) => <Text as NetworkAdapter>::enc_model(x),
        PacketModel::TradeAccepted(x) => <TradeAccepted as NetworkAdapter>::enc_model(x),
        PacketModel::TradeChanged(x) => <TradeChanged as NetworkAdapter>::enc_model(x),
        PacketModel::TradeDone(x) => <TradeDone as NetworkAdapter>::enc_model(x),
        PacketModel::TradeRequested(x) => <TradeRequested as NetworkAdapter>::enc_model(x),
        PacketModel::TradeStart(x) => <TradeStart as NetworkAdapter>::enc_model(x),
        PacketModel::Update(x) => <Update as NetworkAdapter>::enc_model(x),
        PacketModel::VerifyEmail(x) => <VerifyEmail as NetworkAdapter>::enc_model(x),
    }
}

/// Whether a packet model can be encoded: every length in it fits its
/// declared prefix type.
#[verifier::opaque]
pub open spec fn valid_packet(m: PacketModel) -> bool {
    match m {
        PacketModel::AcceptTrade(x) => <AcceptTrade as NetworkAdapter>::valid_model(x),
        PacketModel::ActivePetUpdateRequest(x) => <ActivePetUpdateRequest as NetworkAdapter>::valid_model(x),
        PacketModel::AoeAck(x) => <AoeAck as NetworkAdapter>::valid_model(x),
        PacketModel::Buy(x) => <Buy as NetworkAdapter>::valid_model(x),
        PacketModel::CancelTrade(x) => <CancelTrade as NetworkAdapter>::valid_model(x),
        PacketModel::ChangeGuildRank(x) => <ChangeGuildRank as NetworkAdapter>::valid_model(x),
        PacketModel::ChangeTrade(x) => <ChangeTrade as NetworkAdapter>::valid_model(x),
        PacketModel::CheckCredits(x) => <CheckCredits as NetworkAdapter>::valid_model(x),
        PacketModel::ChooseName(x) => <ChooseName as NetworkAdapter>::valid_model(x),
        PacketModel::ClaimLoginRewardMsg(x) => <ClaimLoginRewardMsg as NetworkAdapter>::valid_model(x),
        PacketModel::Create(x) => <Create as NetworkAdapter>::valid_model(x),
        PacketModel::CreateGuild(x) => <CreateGuild as NetworkAdapter>::valid_model(x),
        PacketModel::EditAccountList(x) => <EditAccountList as NetworkAdapter>::valid_model(x),
        PacketModel::EnemyHit(x) => <EnemyHit as NetworkAdapter>::valid_model(x),
        PacketModel::EnterArena(x) => <EnterArena as NetworkAdapter>::valid_model(x),
        PacketModel::Escape(x) => <Escape as NetworkAdapter>::valid_model(x),
        PacketModel::GotoAck(x) => <GotoAck as NetworkAdapter>::valid_model(x),
        PacketModel::GroundDamage(x) => <GroundDamage as NetworkAdapter>::valid_model(x),
        PacketModel::GuildInvite(x) => <GuildInvite as NetworkAdapter>::valid_model(x),
        PacketModel::GuildRemove(x) => <GuildRemove as NetworkAdapter>::valid_model(x),
        PacketModel::Hello(x) => <Hello as NetworkAdapter>::valid_model(x),
        PacketModel::InvDrop(x) => <InvDrop as NetworkAdapter>::valid_model(x),
        PacketModel::InvSwap(x) => <InvSwap as NetworkAdapter>::valid_model(x),
        PacketModel::JoinGuild(x) => <JoinGuild as NetworkAdapter>::valid_model(x),
        PacketModel::KeyInfoRequest(x) => <KeyInfoRequest as NetworkAdapter>::valid_model(x),
        PacketModel::Load(x) => <Load as NetworkAdapter>::valid_model(x),
        PacketModel::Move(x) => <Move as NetworkAdapter>::valid_model(x),
        PacketModel::OtherHit(x) => <OtherHit as NetworkAdapter>::valid_model(x),
        PacketModel::PetChangeFormMsg(x) => <PetChangeFormMsg as NetworkAdapter>::valid_model(x),
        PacketModel::PetChangeSkinMsg(x) => <PetChangeSkinMsg as NetworkAdapter>::valid_model(x),
        PacketModel::PetUpgradeRequest(x) => <PetUpgradeRequest as NetworkAdapter>::valid_model(x),
        PacketModel::PlayerHit(x) => <PlayerHit as NetworkAdapter>::valid_model(x),
        PacketModel::PlayerShoot(x) => <PlayerShoot as NetworkAdapter>::valid_model(x),
        PacketModel::PlayerText(x) => <PlayerText as NetworkAdapter>::valid_model(x),
        PacketModel::QuestRedeem(x) => <QuestRedeem as NetworkAdapter>::valid_model(x),
        PacketModel::QuestRoomMsg(x) => <QuestRoomMsg as NetworkAdapter>::valid_model(x),
        PacketModel::Pong(x) => <Pong as NetworkAdapter>::valid_model(x),
        PacketModel::RequestTrade(x) => <RequestTrade as NetworkAdapter>::valid_model(x),
        PacketModel::ResetDailyQuests(x) => <ResetDailyQuests as NetworkAdapter>::valid_model(x),
        PacketModel::Reskin(x) => <Reskin as NetworkAdapter>::valid_model(x),
        PacketModel::SetCondition(x) => <SetCondition as NetworkAdapter>::valid_model(x),
        PacketModel::ShootAck(x) => <ShootAck as NetworkAdapter>::valid_model(x),
        PacketModel::SquareHit(x) => <SquareHit as NetworkAdapter>::valid_model(x),
        PacketModel::Teleport(x) => <Teleport as NetworkAdapter>::valid_model(x),
        PacketModel::UpdateAck(x) => <UpdateAck as NetworkAdapter>::valid_model(x),
        PacketModel::UseItem(x) => <UseItem as NetworkAdapter>::valid_model(x),
        PacketModel::UsePortal(x) => <UsePortal as NetworkAdapter>::valid_model(x),
        PacketModel::QuestFetchAsk(x) => <QuestFetchAsk as NetworkAdapter>::valid_model(x),
        PacketModel::AcceptArenaDeath(x) => <AcceptArenaDeath as NetworkAdapter>::valid_model(x),
        PacketModel::AccountList(x) => <AccountList as NetworkAdapter>::valid_model(x),
        PacketModel::ActivePetUpdate(x) => <ActivePetUpdate as NetworkAdapter>::valid_model(x),
        PacketModel::AllyShoot(x) => <AllyShoot as NetworkAdapter>::valid_model(x),
        PacketModel::Aoe(x) => <Aoe as NetworkAdapter>::valid_model(x),
        PacketModel::ArenaDeath(x) => <ArenaDeath as NetworkAdapter>::valid_model(x),
        PacketModel::BuyResult(x) => <BuyResult as NetworkAdapter>::valid_model(x),
        PacketModel::ClientStat(x) => <ClientStat as NetworkAdapter>::valid_model(x),
        PacketModel::CreateSuccess(x) => <CreateSuccess as NetworkAdapter>::valid_model(x),
        PacketModel::Damage(x) => <Damage as NetworkAdapter>::valid_model(x),
        PacketModel::Death(x) => <Death as NetworkAdapter>::valid_model(x),
        PacketModel::DeletePet(x) => <DeletePet as NetworkAdapter>::valid_model(x),
        PacketModel::EnemyShoot(x) => self::manual_adapters::enemy_shoot_valid(x),
        PacketModel::EvolvePet(x) => <EvolvePet as NetworkAdapter>::valid_model(x),
        PacketModel::Failure(x) => <Failure as NetworkAdapter>::valid_model(x),
        PacketModel::File(x) => <File as NetworkAdapter>::valid_model(x),
        PacketModel::GlobalNotification(x) => <GlobalNotification as NetworkAdapter>::valid_model(x),
        PacketModel::Goto(x) => <Goto as NetworkAdapter>::valid_model(x),
        PacketModel::GuildResult(x) => <GuildResult as NetworkAdapter>::valid_model(x),
        PacketModel::HatchPet(x) => <HatchPet as NetworkAdapter>::valid_model(x),
        PacketModel::InvResult(x) => <InvResult as NetworkAdapter>::valid_model(x),
        PacketModel::InvitedToGuild(x) => <InvitedToGuild as NetworkAdapter>::valid_model(x),
        PacketModel::ImminentArenaWave(x) => <ImminentArenaWave as NetworkAdapter>::valid_model(x),
        PacketModel::KeyInfoResponse(x) => <KeyInfoResponse as NetworkAdapter>::valid_model(x),
        PacketModel::LoginRewardMsg(x) => <LoginRewardMsg as NetworkAdapter>::valid_model(x),
        PacketModel::MapInfo(x) => <MapInfo as NetworkAdapter>::valid_model(x),
        PacketModel::NameResult(x) => <NameResult as NetworkAdapter>::valid_model(x),
        PacketModel::NewAbility(x) => <NewAbility as NetworkAdapter>::valid_model(x),
        PacketModel::NewTick(x) => <NewTick as NetworkAdapter>::valid_model(x),
        PacketModel::Notification(x) => <Notification as NetworkAdapter>::valid_model(x),
        PacketModel::PasswordPrompt(x) => <PasswordPrompt as NetworkAdapter>::valid_model(x),
        PacketModel::PetYardUpdate(x) => <PetYardUpdate as NetworkAdapter>::valid_model(x),
        PacketModel::Pic(x) => <Pic as NetworkAdapter>::valid_model(x),
        PacketModel::Ping(x) => <Ping as NetworkAdapter>::valid_model(x),
        PacketModel::PlaySound(x) => <PlaySound as NetworkAdapter>::valid_model(x),
        PacketModel::QuestObjId(x) => <QuestObjId as NetworkAdapter>::valid_model(x),
        PacketModel::QuestFetchResponse(x) => <QuestFetchResponse as NetworkAdapter>::valid_model(x),
        PacketModel::QuestRedeemResponse(x) => <QuestRedeemResponse as NetworkAdapter>::valid_model(x),
        PacketModel::RealmHeroLeftMsg(x) => <RealmHeroLeftMsg as NetworkAdapter>::valid_model(x),
        PacketModel::Reconnect(x) => <Reconnect as NetworkAdapter>::valid_model(x),
        PacketModel::ReskinUnlock(x) => <ReskinUnlock as NetworkAdapter>::valid_model(x),
        PacketModel::ServerPlayerShoot(x) => <ServerPlayerShoot as NetworkAdapter>::valid_model(x),
        PacketModel::ShowEffect(x) => <ShowEffect as NetworkAdapter>::valid_model(x),
        PacketModel::Text(x) => <Text as NetworkAdapter>::valid_model(x),
        PacketModel::TradeAccepted(x) => <TradeAccepted as NetworkAdapter>::valid_model(x),
        PacketModel::TradeChanged(x) => <TradeChanged as NetworkAdapter>::valid_model(x),
        PacketModel::TradeDone(x) => <TradeDone as NetworkAdapter>::valid_model(x),
        PacketModel::TradeRequested(x) => <TradeRequested as NetworkAdapter>::valid_model(x),
        PacketModel::TradeStart(x) => <TradeStart as NetworkAdapter>::valid_model(x),
        PacketModel::Update(x) => <Update as NetworkAdapter>::valid_model(x),
        PacketModel::VerifyEmail(x) => <VerifyEmail as NetworkAdapter>::valid_model(x),
    }
}

/// The name of a message variant, for diagnostics.
pub open spec fn packet_name(id: InternalPacketId) -> Seq<char> {
    match id {
        InternalPacketId::AcceptTrade => "AcceptTrade"@,
        InternalPacketId::ActivePetUpdateRequest => "ActivePetUpdateRequest"@,
        InternalPacketId::AoeAck => "AoeAck"@,
        InternalPacketId::Buy => "Buy"@,
        InternalPacketId::CancelTrade => "CancelTrade"@,
        InternalPacketId::ChangeGuildRank => "ChangeGuildRank"@,
        InternalPacketId::ChangeTrade => "ChangeTrade"@,
        InternalPacketId::CheckCredits => "CheckCredits"@,
        InternalPacketId::ChooseName => "ChooseName"@,
        InternalPacketId::ClaimLoginRewardMsg => "ClaimLoginRewardMsg"@,
        InternalPacketId::Create => "Create"@,
        InternalPacketId::CreateGuild => "CreateGuild"@,
        InternalPacketId::EditAccountList => "EditAccountList"@,
        InternalPacketId::EnemyHit => "EnemyHit"@,
        InternalPacketId::EnterArena => "EnterArena"@,
        InternalPacketId::Escape => "Escape"@,
        InternalPacketId::GotoAck => "GotoAck"@,
        InternalPacketId::GroundDamage => "GroundDamage"@,
        InternalPacketId::GuildInvite => "GuildInvite"@,
        InternalPacketId::GuildRemove => "GuildRemove"@,
        InternalPacketId::Hello => "Hello"@,
        InternalPacketId::InvDrop => "InvDrop"@,
        InternalPacketId::InvSwap => "InvSwap"@,
        InternalPacketId::JoinGuild => "JoinGuild"@,
        InternalPacketId::KeyInfoRequest => "KeyInfoRequest"@,
        InternalPacketId::Load => "Load"@,
        InternalPacketId::Move => "Move"@,
        InternalPacketId::OtherHit => "OtherHit"@,
        InternalPacketId::PetChangeFormMsg => "PetChangeFormMsg"@,
        InternalPacketId::PetChangeSkinMsg => "PetChangeSkinMsg"@,
        InternalPacketId::PetUpgradeRequest => "PetUpgradeRequest"@,
        InternalPacketId::PlayerHit => "PlayerHit"@,
        InternalPacketId::PlayerShoot => "PlayerShoot"@,
        InternalPacketId::PlayerText => "PlayerText"@,
        InternalPacketId::QuestRedeem => "QuestRedeem"@,
        InternalPacketId::QuestRoomMsg => "QuestRoomMsg"@,
        InternalPacketId::Pong => "Pong"@,
        InternalPacketId::RequestTrade => "RequestTrade"@,
        InternalPacketId::ResetDailyQuests => "ResetDailyQuests"@,
        InternalPacketId::Reskin => "Reskin"@,
        InternalPacketId::SetCondition => "SetCondition"@,
        InternalPacketId::ShootAck => "ShootAck"@,
        InternalPacketId::SquareHit => "SquareHit"@,
        InternalPacketId::Teleport => "Teleport"@,
        InternalPacketId::UpdateAck => "UpdateAck"@,
        InternalPacketId::UseItem => "UseItem"@,
        InternalPacketId::UsePortal => "UsePortal"@,
        InternalPacketId::QuestFetchAsk => "QuestFetchAsk"@,
        InternalPacketId::AcceptArenaDeath => "AcceptArenaDeath"@,
        InternalPacketId::AccountList => "AccountList"@,
        InternalPacketId::ActivePetUpdate => "ActivePetUpdate"@,
        InternalPacketId::AllyShoot => "AllyShoot"@,
        InternalPacketId::Aoe => "Aoe"@,
        InternalPacketId::ArenaDeath => "ArenaDeath"@,
        InternalPacketId::BuyResult => "BuyResult"@,
        InternalPacketId::ClientStat => "ClientStat"@,
        InternalPacketId::CreateSuccess => "CreateSuccess"@,
        InternalPacketId::Damage => "Damage"@,
        InternalPacketId::Death => "Death"@,
        InternalPacketId::DeletePet => "DeletePet"@,
        InternalPacketId::EnemyShoot => "EnemyShoot"@,
        InternalPacketId::EvolvePet => "EvolvePet"@,
        InternalPacketId::Failure => "Failure"@,
        InternalPacketId::File => "File"@,
        InternalPacketId::GlobalNotification => "GlobalNotification"@,
        InternalPacketId::Goto => "Goto"@,
        InternalPacketId::GuildResult => "GuildResult"@,
        InternalPacketId::HatchPet => "HatchPet"@,
        InternalPacketId::InvResult => "InvResult"@,
        InternalPacketId::InvitedToGuild => "InvitedToGuild"@,
        InternalPacketId::ImminentArenaWave => "ImminentArenaWave"@,
        InternalPacketId::KeyInfoResponse => "KeyInfoResponse"@,
        InternalPacketId::LoginRewardMsg => "LoginRewardMsg"@,
        InternalPacketId::MapInfo => "MapInfo"@,
        InternalPacketId::NameResult => "NameResult"@,
        InternalPacketId::NewAbility => "NewAbility"@,
        InternalPacketId::NewTick => "NewTick"@,
        InternalPacketId::Notification => "Notification"@,
        InternalPacketId::PasswordPrompt => "PasswordPrompt"@,
        InternalPacketId::PetYardUpdate => "PetYardUpdate"@,
        InternalPacketId::Pic => "Pic"@,
        InternalPacketId::Ping => "Ping"@,
        InternalPacketId::PlaySound => "PlaySound"@,
        InternalPacketId::QuestObjId => "QuestObjId"@,
        InternalPacketId::QuestFetchResponse => "QuestFetchResponse"@,
        InternalPacketId::QuestRedeemResponse => "QuestRedeemResponse"@,
        InternalPacketId::RealmHeroLeftMsg => "RealmHeroLeftMsg"@,
        InternalPacketId::Reconnect => "Reconnect"@,
        InternalPacketId::ReskinUnlock => "ReskinUnlock"@,
        InternalPacketId::ServerPlayerShoot => "ServerPlayerShoot"@,
        InternalPacketId::ShowEffect => "ShowEffect"@,
        InternalPacketId::Text => "Text"@,
        InternalPacketId::TradeAccepted => "TradeAccepted"@,
        InternalPacketId::TradeChanged => "TradeChanged"@,
        InternalPacketId::TradeDone => "TradeDone"@,
        InternalPacketId::TradeRequested => "TradeRequested"@,
        InternalPacketId::TradeStart => "TradeStart"@,
        InternalPacketId::Update => "Update"@,
        InternalPacketId::VerifyEmail => "VerifyEmail"@,
    }
}

impl Packet {
    /// The model of this packet.
    pub open spec fn model(self) -> PacketModel {
        match self {
            Packet::AcceptTrade(x) => PacketModel::AcceptTrade(x.model()),
            Packet::ActivePetUpdateRequest(x) => PacketModel::ActivePetUpdateRequest(x.model()),
            Packet::AoeAck(x) => PacketModel::AoeAck(x.model()),
            Packet::Buy(x) => PacketModel::Buy(x.model()),
            Packet::CancelTrade(x) => PacketModel::CancelTrade(x.model()),
            Packet::ChangeGuildRank(x) => PacketModel::ChangeGuildRank(x.model()),
            Packet::ChangeTrade(x) => PacketModel::ChangeTrade(x.model()),
            Packet::CheckCredits(x) => PacketModel::CheckCredits(x.model()),
            Packet::ChooseName(x) => PacketModel::ChooseName(x.model()),
            Packet::ClaimLoginRewardMsg(x) => PacketModel::ClaimLoginRewardMsg(x.model()),
            Packet::Create(x) => PacketModel::Create(x.model()),
            Packet::CreateGuild(x) => PacketModel::CreateGuild(x.model()),
            Packet::EditAccountList(x) => PacketModel::EditAccountList(x.model()),
            Packet::EnemyHit(x) => PacketModel::EnemyHit(x.model()),
            Packet::EnterArena(x) => PacketModel::EnterArena(x.model()),
            Packet::Escape(x) => PacketModel::Escape(x.model()),
            Packet::GotoAck(x) => PacketModel::GotoAck(x.model()),
            Packet::GroundDamage(x) => PacketModel::GroundDamage(x.model()),
            Packet::GuildInvite(x) => PacketModel::GuildInvite(x.model()),
            Packet::GuildRemove(x) => PacketModel::GuildRemove(x.model()),
            Packet::Hello(x) => PacketModel::Hello(x.model()),
            Packet::InvDrop(x) => PacketModel::InvDrop(x.model()),
            Packet::InvSwap(x) => PacketModel::InvSwap(x.model()),
            Packet::JoinGuild(x) => PacketModel::JoinGuild(x.model()),
            Packet::KeyInfoRequest(x) => PacketModel::KeyInfoRequest(x.model()),
            Packet::Load(x) => PacketModel::Load(x.model()),
            Packet::Move(x) => PacketModel::Move(x.model()),
            Packet::OtherHit(x) => PacketModel::OtherHit(x.model()),
            Packet::PetChangeFormMsg(x) => PacketModel::PetChangeFormMsg(x.model()),
            Packet::PetChangeSkinMsg(x) => PacketModel::PetChangeSkinMsg(x.model()),
            Packet::PetUpgradeRequest(x) => PacketModel::PetUpgradeRequest(x.model()),
            Packet::PlayerHit(x) => PacketModel::PlayerHit(x.model()),
            Packet::PlayerShoot(x) => PacketModel::PlayerShoot(x.model()),
            Packet::PlayerText(x) => PacketModel::PlayerText(x.model()),
            Packet::QuestRedeem(x) => PacketModel::QuestRedeem(x.model()),
            Packet::QuestRoomMsg(x) => PacketModel::QuestRoomMsg(x.model()),
            Packet::Pong(x) => PacketModel::Pong(x.model()),
            Packet::RequestTrade(x) => PacketModel::RequestTrade(x.model()),
            Packet::ResetDailyQuests(x) => PacketModel::ResetDailyQuests(x.model()),
            Packet::Reskin(x) => PacketModel::Reskin(x.model()),
            Packet::SetCondition(x) => PacketModel::SetCondition(x.model()),
            Packet::ShootAck(x) => PacketModel::ShootAck(x.model()),
            Packet::SquareHit(x) => PacketModel::SquareHit(x.model()),
            Packet::Teleport(x) => PacketModel::Teleport(x.model()),
            Packet::UpdateAck(x) => PacketModel::UpdateAck(x.model()),
            Packet::UseItem(x) => PacketModel::UseItem(x.model()),
            Packet::UsePortal(x) => PacketModel::UsePortal(x.model()),
            Packet::QuestFetchAsk(x) => PacketModel::QuestFetchAsk(x.model()),
            Packet::AcceptArenaDeath(x) => PacketModel::AcceptArenaDeath(x.model()),
            Packet::AccountList(x) => PacketModel::AccountList(x.model()),
            Packet::ActivePetUpdate(x) => PacketModel::ActivePetUpdate(x.model()),
            Packet::AllyShoot(x) => PacketModel::AllyShoot(x.model()),
            Packet::Aoe(x) => PacketModel::Aoe(x.model()),
            Packet::ArenaDeath(x) => PacketModel::ArenaDeath(x.model()),
            Packet::BuyResult(x) => PacketModel::BuyResult(x.model()),
            Packet::ClientStat(x) => PacketModel::ClientStat(x.model()),
            Packet::CreateSuccess(x) => PacketModel::CreateSuccess(x.model()),
            Packet::Damage(x) => PacketModel::Damage(x.model()),
            Packet::Death(x) => PacketModel::Death(x.model()),
            Packet::DeletePet(x) => PacketModel::DeletePet(x.model()),
            Packet::EnemyShoot(x) => PacketModel::EnemyShoot(x),
            Packet::EvolvePet(x) => PacketModel::EvolvePet(x.model()),
            Packet::Failure(x) => PacketModel::Failure(x.model()),
            Packet::File(x) => PacketModel::File(x.model()),
            Packet::GlobalNotification(x) => PacketModel::GlobalNotification(x.model()),
            Packet::Goto(x) => PacketModel::Goto(x.model()),
            Packet::GuildResult(x) => PacketModel::GuildResult(x.model()),
            Packet::HatchPet(x) => PacketModel::HatchPet(x.model()),
            Packet::InvResult(x) => PacketModel::InvResult(x.model()),
            Packet::InvitedToGuild(x) => PacketModel::InvitedToGuild(x.model()),
            Packet::ImminentArenaWave(x) => PacketModel::ImminentArenaWave(x.model()),
            Packet::KeyInfoResponse(x) => PacketModel::KeyInfoResponse(x.model()),
            Packet::LoginRewardMsg(x) => PacketModel::LoginRewardMsg(x.model()),
            Packet::MapInfo(x) => PacketModel::MapInfo(x.model()),
            Packet::NameResult(x) => PacketModel::NameResult(x.model()),
            Packet::NewAbility(x) => PacketModel::NewAbility(x.model()),
            Packet::NewTick(x) => PacketModel::NewTick(x.model()),
            Packet::Notification(x) => PacketModel::Notification(x.model()),
            Packet::PasswordPrompt(x) => PacketModel::PasswordPrompt(x.model()),
            Packet::PetYardUpdate(x) => PacketModel::PetYardUpdate(x.model()),
            Packet::Pic(x) => PacketModel::Pic(x.model()),
            Packet::Ping(x) => PacketModel::Ping(x.model()),
            Packet::PlaySound(x) => PacketModel::PlaySound(x.model()),
            Packet::QuestObjId(x) => PacketModel::QuestObjId(x.model()),
            Packet::QuestFetchResponse(x) => PacketModel::QuestFetchResponse(x.model()),
            Packet::QuestRedeemResponse(x) => PacketModel::QuestRedeemResponse(x.model()),
            Packet::RealmHeroLeftMsg(x) => PacketModel::RealmHeroLeftMsg(x.model()),
            Packet::Reconnect(x) => PacketModel::Reconnect(x.model()),
            Packet::ReskinUnlock(x) => PacketModel::ReskinUnlock(x.model()),
            Packet::ServerPlayerShoot(x) => PacketModel::ServerPlayerShoot(x.model()),
            Packet::ShowEffect(x) => PacketModel::ShowEffect(x.model()),
            Packet::Text(x) => PacketModel::Text(x.model()),
            Packet::TradeAccepted(x) => PacketModel::TradeAccepted(x.model()),
            Packet::TradeChanged(x) => PacketModel::TradeChanged(x.model()),
            Packet::TradeDone(x) => PacketModel::TradeDone(x.model()),
            Packet::TradeRequested(x) => PacketModel::TradeRequested(x.model()),
            Packet::TradeStart(x) => PacketModel::TradeStart(x.model()),
            Packet::Update(x) => PacketModel::Update(x.model()),
            Packet::VerifyEmail(x) => PacketModel::VerifyEmail(x.model()),
        }
    }

    /// Get the internal identifier of this packet's variant. Total.
    pub fn get_internal_id(&self) -> (id: InternalPacketId)
        ensures
            id == packet_model_id(self.model()),
    {
        match self {
            Packet::AcceptTrade(_) => InternalPacketId::AcceptTrade,
            Packet::ActivePetUpdateRequest(_) => InternalPacketId::ActivePetUpdateRequest,
            Packet::AoeAck(_) => InternalPacketId::AoeAck,
            Packet::Buy(_) => InternalPacketId::Buy,
            Packet::CancelTrade(_) => InternalPacketId::CancelTrade,
            Packet::ChangeGuildRank(_) => InternalPacketId::ChangeGuildRank,
            Packet::ChangeTrade(_) => InternalPacketId::ChangeTrade,
            Packet::CheckCredits(_) => InternalPacketId::CheckCredits,
            Packet::ChooseName(_) => InternalPacketId::ChooseName,
            Packet::ClaimLoginRewardMsg(_) => InternalPacketId::ClaimLoginRewardMsg,
            Packet::Create(_) => InternalPacketId::Create,
            Packet::CreateGuild(_) => InternalPacketId::CreateGuild,
            Packet::EditAccountList(_) => InternalPacketId::EditAccountList,
            Packet::EnemyHit(_) => InternalPacketId::EnemyHit,
            Packet::EnterArena(_) => InternalPacketId::EnterArena,
            Packet::Escape(_) => InternalPacketId::Escape,
            Packet::GotoAck(_) => InternalPacketId::GotoAck,
            Packet::GroundDamage(_) => InternalPacketId::GroundDamage,
            Packet::GuildInvite(_) => InternalPacketId::GuildInvite,
            Packet::GuildRemove(_) => InternalPacketId::GuildRemove,
            Packet::Hello(_) => InternalPacketId::Hello,
            Packet::InvDrop(_) => InternalPacketId::InvDrop,
            Packet::InvSwap(_) => InternalPacketId::InvSwap,
            Packet::JoinGuild(_) => InternalPacketId::JoinGuild,
            Packet::KeyInfoRequest(_) => InternalPacketId::KeyInfoRequest,
            Packet::Load(_) => InternalPacketId::Load,
            Packet::Move(_) => InternalPacketId::Move,
            Packet::OtherHit(_) => InternalPacketId::OtherHit,
            Packet::PetChangeFormMsg(_) => InternalPacketId::PetChangeFormMsg,
            Packet::PetChangeSkinMsg(_) => InternalPacketId::PetChangeSkinMsg,
            Packet::PetUpgradeRequest(_) => InternalPacketId::PetUpgradeRequest,
            Packet::PlayerHit(_) => InternalPacketId::PlayerHit,
            Packet::PlayerShoot(_) => InternalPacketId::PlayerShoot,
            Packet::PlayerText(_) => InternalPacketId::PlayerText,
            Packet::QuestRedeem(_) => InternalPacketId::QuestRedeem,
            Packet::QuestRoomMsg(_) => InternalPacketId::QuestRoomMsg,
            Packet::Pong(_) => InternalPacketId::Pong,
            Packet::RequestTrade(_) => InternalPacketId::RequestTrade,
            Packet::ResetDailyQuests(_) => InternalPacketId::ResetDailyQuests,
            Packet::Reskin(_) => InternalPacketId::Reskin,
            Packet::SetCondition(_) => InternalPacketId::SetCondition,
            Packet::ShootAck(_) => InternalPacketId::ShootAck,
            Packet::SquareHit(_) => InternalPacketId::SquareHit,
            Packet::Teleport(_) => InternalPacketId::Teleport,
            Packet::UpdateAck(_) => InternalPacketId::UpdateAck,
            Packet::UseItem(_) => InternalPacketId::UseItem,
            Packet::UsePortal(_) => InternalPacketId::UsePortal,
            Packet::QuestFetchAsk(_) => InternalPacketId::QuestFetchAsk,
            Packet::AcceptArenaDeath(_) => InternalPacketId::AcceptArenaDeath,
            Packet::AccountList(_) => InternalPacketId::AccountList,
            Packet::ActivePetUpdate(_) => InternalPacketId::ActivePetUpdate,
            Packet::AllyShoot(_) => InternalPacketId::AllyShoot,
            Packet::Aoe(_) => InternalPacketId::Aoe,
            Packet::ArenaDeath(_) => InternalPacketId::ArenaDeath,
            Packet::BuyResult(_) => InternalPacketId::BuyResult,
            Packet::ClientStat(_) => InternalPacketId::ClientStat,
            Packet::CreateSuccess(_) => InternalPacketId::CreateSuccess,
            Packet::Damage(_) => InternalPacketId::Damage,
            Packet::Death(_) => InternalPacketId::Death,
            Packet::DeletePet(_) => InternalPacketId::DeletePet,
            Packet::EnemyShoot(_) => InternalPacketId::EnemyShoot,
            Packet::EvolvePet(_) => InternalPacketId::EvolvePet,
            Packet::Failure(_) => InternalPacketId::Failure,
            Packet::File(_) => InternalPacketId::File,
            Packet::GlobalNotification(_) => InternalPacketId::GlobalNotification,
            Packet::Goto(_) => InternalPacketId::Goto,
            Packet::GuildResult(_) => InternalPacketId::GuildResult,
            Packet::HatchPet(_) => InternalPacketId::HatchPet,
            Packet::InvResult(_) => InternalPacketId::InvResult,
            Packet::InvitedToGuild(_) => InternalPacketId::InvitedToGuild,
            Packet::ImminentArenaWave(_) => InternalPacketId::ImminentArenaWave,
            Packet::KeyInfoResponse(_) => InternalPacketId::KeyInfoResponse,
            Packet::LoginRewardMsg(_) => InternalPacketId::LoginRewardMsg,
            Packet::MapInfo(_) => InternalPacketId::MapInfo,
            Packet::NameResult(_) => InternalPacketId::NameResult,
            Packet::NewAbility(_) => InternalPacketId::NewAbility,
            Packet::NewTick(_) => InternalPacketId::NewTick,
            Packet::Notification(_) => InternalPacketId::Notification,
            Packet::PasswordPrompt(_) => InternalPacketId::PasswordPrompt,
            Packet::PetYardUpdate(_) => InternalPacketId::PetYardUpdate,
            Packet::Pic(_) => InternalPacketId::Pic,
            Packet::Ping(_) => InternalPacketId::Ping,
            Packet::PlaySound(_) => InternalPacketId::PlaySound,
            Packet::QuestObjId(_) => InternalPacketId::QuestObjId,
            Packet::QuestFetchResponse(_) => InternalPacketId::QuestFetchResponse,
            Packet::QuestRedeemResponse(_) => InternalPacketId::QuestRedeemResponse,
            Packet::RealmHeroLeftMsg(_) => InternalPacketId::RealmHeroLeftMsg,
            Packet::Reconnect(_) => InternalPacketId::Reconnect,
            Packet::ReskinUnlock(_) => InternalPacketId::ReskinUnlock,
            Packet::ServerPlayerShoot(_) => InternalPacketId::ServerPlayerShoot,
            Packet::ShowEffect(_) => InternalPacketId::ShowEffect,
            Packet::Text(_) => InternalPacketId::Text,
            Packet::TradeAccepted(_) => InternalPacketId::TradeAccepted,
            Packet::TradeChanged(_) => InternalPacketId::TradeChanged,
            Packet::TradeDone(_) => InternalPacketId::TradeDone,
            Packet::TradeRequested(_) => InternalPacketId::TradeRequested,
            Packet::TradeStart(_) => InternalPacketId::TradeStart,
            Packet::Update(_) => InternalPacketId::Update,
            Packet::VerifyEmail(_) => InternalPacketId::VerifyEmail,
        }
    }

    /// Decode a packet of the variant named by `id` from the decrypted
    /// payload bytes in `r`. Bytes left over after the declared fields
    /// are ignored, as the field list governs how much is read.
    #[verifier::rlimit(100)]
    #[verifier::spinoff_prover]
    pub fn from_bytes(id: InternalPacketId, r: &mut Reader) -> (res: Result<Packet, Error>)
        ensures
            final(r).all_bytes() == old(r).all_bytes(),
            match dec_packet(id, old(r).remaining_bytes()) {
                Ok((m, u)) => (res matches Ok(p) && p.model() == m) && 0 <= u <= old(
                    r,
                ).remaining_bytes().len() && final(r).remaining_bytes() == old(
                    r,
                ).remaining_bytes().skip(u),
                Err(e) => res == Err::<Packet, Error>(e) && final(r).remaining_bytes() == old(
                    r,
                ).remaining_bytes(),
            },
    {
        reveal(dec_packet);
        match id {
            InternalPacketId::AcceptTrade => match <AcceptTrade as NetworkAdapter>::get_be(r) {
                Ok(v) => Ok(Packet::AcceptTrade(v)),
                Err(e) => Err(e),
            },
            InternalPacketId::ActivePetUpdateRequest => match <ActivePetUpdateRequest as NetworkAdapter>::get_be(r) {
                Ok(v) => Ok(Packet::ActivePetUpdateRequest(v)),
                Err(e) => Err(e),
            },
            InternalPacketId::AoeAck => match <AoeAck as NetworkAdapter>::get_be(r) {
                Ok(v) => Ok(Packet::AoeAck(v)),
                Err(e) => Err(e),
            },
            InternalPacketId::Buy => match <Buy as NetworkAdapter>::get_be(r) {
                Ok(v) => Ok(Packet::Buy(v)),
                Err(e) => Err(e),
            },
            InternalPacketId::CancelTrade => match <CancelTrade as NetworkAdapter>::get_be(r) {
                Ok(v) => Ok(Packet::CancelTrade(v)),
                Err(e) => Err(e),
            },
            InternalPacketId::ChangeGuildRank => match <ChangeGuildRank as NetworkAdapter>::get_be(r) {
                Ok(v) => Ok(Packet::ChangeGuildRank(v)),
                Err(e) => Err(e),
            },
            InternalPacketId::ChangeTrade => match <ChangeTrade as NetworkAdapter>::get_be(r) {
                Ok(v) => Ok(Packet::ChangeTrade(v)),
                Err(e) => Err(e),
            },
            InternalPacketId::CheckCredits => match <CheckCredits as NetworkAdapter>::get_be(r) {
                Ok(v) => Ok(Packet::CheckCredits(v)),
                Err(e) => Err(e),
            },
            InternalPacketId::ChooseName => match <ChooseName as NetworkAdapter>::get_be(r) {
                Ok(v) => Ok(Packet::ChooseName(v)),
                Err(e) => Err(e),
            },
            InternalPacketId::ClaimLoginRewardMsg => match <ClaimLoginRewardMsg as NetworkAdapter>::get_be(r) {
                Ok(v) => Ok(Packet::ClaimLoginRewardMsg(v)),
                Err(e) => Err(e),
            },
            InternalPacketId::Create => match <Create as NetworkAdapter>::get_be(r) {
                Ok(v) => Ok(Packet::Create(v)),
                Err(e) => Err(e),
            },
            InternalPacketId::CreateGuild => match <CreateGuild as NetworkAdapter>::get_be(r) {
                Ok(v) => Ok(Packet::CreateGuild(v)),
                Err(e) => Err(e),
            },
            InternalPacketId::EditAccountList => match <EditAccountList as NetworkAdapter>::get_be(r) {
                Ok(v) => Ok(Packet::EditAccountList(v)),
                Err(e) => Err(e),
            },
            InternalPacketId::EnemyHit => match <EnemyHit as NetworkAdapter>::get_be(r) {
                Ok(v) => Ok(Packet::EnemyHit(v)),
                Err(e) => Err(e),
            },
            InternalPacketId::EnterArena => match <EnterArena as NetworkAdapter>::get_be(r) {
                Ok(v) => Ok(Packet::EnterArena(v)),
                Err(e) => Err(e),
            },
            InternalPacketId::Escape => match <Escape as NetworkAdapter>::get_be(r) {
                Ok(v) => Ok(Packet::Escape(v)),
                Err(e) => Err(e),
            },
            InternalPacketId::GotoAck => match <GotoAck as NetworkAdapter>::get_be(r) {
                Ok(v) => Ok(Packet::GotoAck(v)),
                Err(e) => Err(e),
            },
            InternalPacketId::GroundDamage => match <GroundDamage as NetworkAdapter>::get_be(r) {
                Ok(v) => Ok(Packet::GroundDamage(v)),
                Err(e) => Err(e),
            },
            InternalPacketId::GuildInvite => match <GuildInvite as NetworkAdapter>::get_be(r) {
                Ok(v) => Ok(Packet::GuildInvite(v)),
                Err(e) => Err(e),
            },
            InternalPacketId::GuildRemove => match <GuildRemove as NetworkAdapter>::get_be(r) {
                Ok(v) => Ok(Packet::GuildRemove(v)),
                Err(e) => Err(e),
            },
            InternalPacketId::Hello => match <Hello as NetworkAdapter>::get_be(r) {
                Ok(v) => Ok(Packet::Hello(v)),
                Err(e) => Err(e),
            },
            InternalPacketId::InvDrop => match <InvDrop as NetworkAdapter>::get_be(r) {
                Ok(v) => Ok(Packet::InvDrop(v)),
                Err(e) => Err(e),
            },
            InternalPacketId::InvSwap => match <InvSwap as NetworkAdapter>::get_be(r) {
                Ok(v) => Ok(Packet::InvSwap(v)),
                Err(e) => Err(e),
            },
            InternalPacketId::JoinGuild => match <JoinGuild as NetworkAdapter>::get_be(r) {
                Ok(v) => Ok(Packet::JoinGuild(v)),
                Err(e) => Err(e),
            },
            InternalPacketId::KeyInfoRequest => match <KeyInfoRequest as NetworkAdapter>::get_be(r) {
                Ok(v) => Ok(Packet::KeyInfoRequest(v)),
                Err(e) => Err(e),
            },
            InternalPacketId::Load => match <Load as NetworkAdapter>::get_be(r) {
                Ok(v) => Ok(Packet::Load(v)),
                Err(e) => Err(e),
            },
            InternalPacketId::Move => match <Move as NetworkAdapter>::get_be(r) {
                Ok(v) => Ok(Packet::Move(v)),
                Err(e) => Err(e),
            },
            InternalPacketId::OtherHit => match <OtherHit as NetworkAdapter>::get_be(r) {
                Ok(v) => Ok(Packet::OtherHit(v)),
                Err(e) => Err(e),
            },
            InternalPacketId::PetChangeFormMsg => match <PetChangeFormMsg as NetworkAdapter>::get_be(r) {
                Ok(v) => Ok(Packet::PetChangeFormMsg(v)),
                Err(e) => Err(e),
            },
            InternalPacketId::PetChangeSkinMsg => match <PetChangeSkinMsg as NetworkAdapter>::get_be(r) {
                Ok(v) => Ok(Packet::PetChangeSkinMsg(v)),
                Err(e) => Err(e),
            },
            InternalPacketId::PetUpgradeRequest => match <PetUpgradeRequest as NetworkAdapter>::get_be(r) {
                Ok(v) => Ok(Packet::PetUpgradeRequest(v)),
                Err(e) => Err(e),
            },
            InternalPacketId::PlayerHit => match <PlayerHit as NetworkAdapter>::get_be(r) {
                Ok(v) => Ok(Packet::PlayerHit(v)),
                Err(e) => Err(e),
            },
            InternalPacketId::PlayerShoot => match <PlayerShoot as NetworkAdapter>::get_be(r) {
                Ok(v) => Ok(Packet::PlayerShoot(v)),
                Err(e) => Err(e),
            },
            InternalPacketId::PlayerText => match <PlayerText as NetworkAdapter>::get_be(r) {
                Ok(v) => Ok(Packet::PlayerText(v)),
                Err(e) => Err(e),
            },
            InternalPacketId::QuestRedeem => match <QuestRedeem as NetworkAdapter>::get_be(r) {
                Ok(v) => Ok(Packet::QuestRedeem(v)),
                Err(e) => Err(e),
            },
            InternalPacketId::QuestRoomMsg => match <QuestRoomMsg as NetworkAdapter>::get_be(r) {
                Ok(v) => Ok(Packet::QuestRoomMsg(v)),
                Err(e) => Err(e),
            },
            InternalPacketId::Pong => match <Pong as NetworkAdapter>::get_be(r) {
                Ok(v) => Ok(Packet::Pong(v)),
                Err(e) => Err(e),
            },
            InternalPacketId::RequestTrade => match <RequestTrade as NetworkAdapter>::get_be(r) {
                Ok(v) => Ok(Packet::RequestTrade(v)),
                Err(e) => Err(e),
            },
            InternalPacketId::ResetDailyQuests => match <ResetDailyQuests as NetworkAdapter>::get_be(r) {
                Ok(v) => Ok(Packet::ResetDailyQuests(v)),
                Err(e) => Err(e),
            },
            InternalPacketId::Reskin => match <Reskin as NetworkAdapter>::get_be(r) {
                Ok(v) => Ok(Packet::Reskin(v)),
                Err(e) => Err(e),
            },
            InternalPacketId::SetCondition => match <SetCondition as NetworkAdapter>::get_be(r) {
                Ok(v) => Ok(Packet::SetCondition(v)),
                Err(e) => Err(e),
            },
            InternalPacketId::ShootAck => match <ShootAck as NetworkAdapter>::get_be(r) {
                Ok(v) => Ok(Packet::ShootAck(v)),
                Err(e) => Err(e),
            },
            InternalPacketId::SquareHit => match <SquareHit as NetworkAdapter>::get_be(r) {
                Ok(v) => Ok(Packet::SquareHit(v)),
                Err(e) => Err(e),
            },
            InternalPacketId::Teleport => match <Teleport as NetworkAdapter>::get_be(r) {
                Ok(v) => Ok(Packet::Teleport(v)),
                Err(e) => Err(e),
            },
            InternalPacketId::UpdateAck => match <UpdateAck as NetworkAdapter>::get_be(r) {
                Ok(v) => Ok(Packet::UpdateAck(v)),
                Err(e) => Err(e),
            },
            InternalPacketId::UseItem => match <UseItem as NetworkAdapter>::get_be(r) {
                Ok(v) => Ok(Packet::UseItem(v)),
                Err(e) => Err(e),
            },
            InternalPacketId::UsePortal => match <UsePortal as NetworkAdapter>::get_be(r) {
                Ok(v) => Ok(Packet::UsePortal(v)),
                Err(e) => Err(e),
            },
            InternalPacketId::QuestFetchAsk => match <QuestFetchAsk as NetworkAdapter>::get_be(r) {
                Ok(v) => Ok(Packet::QuestFetchAsk(v)),
                Err(e) => Err(e),
            },
            InternalPacketId::AcceptArenaDeath => match <AcceptArenaDeath as NetworkAdapter>::get_be(r) {
                Ok(v) => Ok(Packet::AcceptArenaDeath(v)),
                Err(e) => Err(e),
            },
            InternalPacketId::AccountList => match <AccountList as NetworkAdapter>::get_be(r) {
                Ok(v) => Ok(Packet::AccountList(v)),
                Err(e) => Err(e),
            },
            InternalPacketId::ActivePetUpdate => match <ActivePetUpdate as NetworkAdapter>::get_be(r) {
                Ok(v) => Ok(Packet::ActivePetUpdate(v)),
                Err(e) => Err(e),
            },
            InternalPacketId::AllyShoot => match <AllyShoot as NetworkAdapter>::get_be(r) {
                Ok(v) => Ok(Packet::AllyShoot(v)),
                Err(e) => Err(e),
            },
            InternalPacketId::Aoe => match <Aoe as NetworkAdapter>::get_be(r) {
                Ok(v) => Ok(Packet::Aoe(v)),
                Err(e) => Err(e),
            },
            InternalPacketId::ArenaDeath => match <ArenaDeath as NetworkAdapter>::get_be(r) {
                Ok(v) => Ok(Packet::ArenaDeath(v)),
                Err(e) => Err(e),
            },
            InternalPacketId::BuyResult => match <BuyResult as NetworkAdapter>::get_be(r) {
                Ok(v) => Ok(Packet::BuyResult(v)),
                Err(e) => Err(e),
            },
            InternalPacketId::ClientStat => match <ClientStat as NetworkAdapter>::get_be(r) {
                Ok(v) => Ok(Packet::ClientStat(v)),
                Err(e) => Err(e),
            },
            InternalPacketId::CreateSuccess => match <CreateSuccess as NetworkAdapter>::get_be(r) {
                Ok(v) => Ok(Packet::CreateSuccess(v)),
                Err(e) => Err(e),
            },
            InternalPacketId::Damage => match <Damage as NetworkAdapter>::get_be(r) {
                Ok(v) => Ok(Packet::Damage(v)),
                Err(e) => Err(e),
            },
            InternalPacketId::Death => match <Death as NetworkAdapter>::get_be(r) {
                Ok(v) => Ok(Packet::Death(v)),
                Err(e) => Err(e),
            },
            InternalPacketId::DeletePet => match <DeletePet as NetworkAdapter>::get_be(r) {
                Ok(v) => Ok(Packet::DeletePet(v)),
                Err(e) => Err(e),
            },
            InternalPacketId::EnemyShoot => match EnemyShoot::get_be(r) {
                Ok(v) => Ok(Packet::EnemyShoot(v)),
                Err(e) => Err(e),
            },
            InternalPacketId::EvolvePet => match <EvolvePet as NetworkAdapter>::get_be(r) {
                Ok(v) => Ok(Packet::EvolvePet(v)),
                Err(e) => Err(e),
            },
            InternalPacketId::Failure => match <Failure as NetworkAdapter>::get_be(r) {
                Ok(v) => Ok(Packet::Failure(v)),
                Err(e) => Err(e),
            },
            InternalPacketId::File => match <File as NetworkAdapter>::get_be(r) {
                Ok(v) => Ok(Packet::File(v)),
                Err(e) => Err(e),
            },
            InternalPacketId::GlobalNotification => match <GlobalNotification as NetworkAdapter>::get_be(r) {
                Ok(v) => Ok(Packet::GlobalNotification(v)),
                Err(e) => Err(e),
            },
            InternalPacketId::Goto => match <Goto as NetworkAdapter>::get_be(r) {
                Ok(v) => Ok(Packet::Goto(v)),
                Err(e) => Err(e),
            },
            InternalPacketId::GuildResult => match <GuildResult as NetworkAdapter>::get_be(r) {
                Ok(v) => Ok(Packet::GuildResult(v)),
                Err(e) => Err(e),
            },
            InternalPacketId::HatchPet => match <HatchPet as NetworkAdapter>::get_be(r) {
                Ok(v) => Ok(Packet::HatchPet(v)),
                Err(e) => Err(e),
            },
            InternalPacketId::InvResult => match <InvResult as NetworkAdapter>::get_be(r) {
                Ok(v) => Ok(Packet::InvResult(v)),
                Err(e) => Err(e),
            },
            InternalPacketId::InvitedToGuild => match <InvitedToGuild as NetworkAdapter>::get_be(r) {
                Ok(v) => Ok(Packet::InvitedToGuild(v)),
                Err(e) => Err(e),
            },
            InternalPacketId::ImminentArenaWave => match <ImminentArenaWave as NetworkAdapter>::get_be(r) {
                Ok(v) => Ok(Packet::ImminentArenaWave(v)),
                Err(e) => Err(e),
            },
            InternalPacketId::KeyInfoResponse => match <KeyInfoResponse as NetworkAdapter>::get_be(r) {
                Ok(v) => Ok(Packet::KeyInfoResponse(v)),
                Err(e) => Err(e),
            },
            InternalPacketId::LoginRewardMsg => match <LoginRewardMsg as NetworkAdapter>::get_be(r) {
                Ok(v) => Ok(Packet::LoginRewardMsg(v)),
                Err(e) => Err(e),
            },
            InternalPacketId::MapInfo => match <MapInfo as NetworkAdapter>::get_be(r) {
                Ok(v) => Ok(Packet::MapInfo(v)),
                Err(e) => Err(e),
            },
            InternalPacketId::NameResult => match <NameResult as NetworkAdapter>::get_be(r) {
                Ok(v) => Ok(Packet::NameResult(v)),
                Err(e) => Err(e),
            },
            InternalPacketId::NewAbility => match <NewAbility as NetworkAdapter>::get_be(r) {
                Ok(v) => Ok(Packet::NewAbility(v)),
                Err(e) => Err(e),
            },
            InternalPacketId::NewTick => match <NewTick as NetworkAdapter>::get_be(r) {
                Ok(v) => Ok(Packet::NewTick(v)),
                Err(e) => Err(e),
            },
            InternalPacketId::Notification => match <Notification as NetworkAdapter>::get_be(r) {
                Ok(v) => Ok(Packet::Notification(v)),
                Err(e) => Err(e),
            },
            InternalPacketId::PasswordPrompt => match <PasswordPrompt as NetworkAdapter>::get_be(r) {
                Ok(v) => Ok(Packet::PasswordPrompt(v)),
                Err(e) => Err(e),
            },
            InternalPacketId::PetYardUpdate => match <PetYardUpdate as NetworkAdapter>::get_be(r) {
                Ok(v) => Ok(Packet::PetYardUpdate(v)),
                Err(e) => Err(e),
            },
            InternalPacketId::Pic => match <Pic as NetworkAdapter>::get_be(r) {
                Ok(v) => Ok(Packet::Pic(v)),
                Err(e) => Err(e),
            },
            InternalPacketId::Ping => match <Ping as NetworkAdapter>::get_be(r) {
                Ok(v) => Ok(Packet::Ping(v)),
                Err(e) => Err(e),
            },
            InternalPacketId::PlaySound => match <PlaySound as NetworkAdapter>::get_be(r) {
                Ok(v) => Ok(Packet::PlaySound(v)),
                Err(e) => Err(e),
            },
            InternalPacketId::QuestObjId => match <QuestObjId as NetworkAdapter>::get_be(r) {
                Ok(v) => Ok(Packet::QuestObjId(v)),
                Err(e) => Err(e),
            },
            InternalPacketId::QuestFetchResponse => match <QuestFetchResponse as NetworkAdapter>::get_be(r) {
                Ok(v) => Ok(Packet::QuestFetchResponse(v)),
                Err(e) => Err(e),
            },
            InternalPacketId::QuestRedeemResponse => match <QuestRedeemResponse as NetworkAdapter>::get_be(r) {
                Ok(v) => Ok(Packet::QuestRedeemResponse(v)),
                Err(e) => Err(e),
            },
            InternalPacketId::RealmHeroLeftMsg => match <RealmHeroLeftMsg as NetworkAdapter>::get_be(r) {
                Ok(v) => Ok(Packet::RealmHeroLeftMsg(v)),
                Err(e) => Err(e),
            },
            InternalPacketId::Reconnect => match <Reconnect as NetworkAdapter>::get_be(r) {
                Ok(v) => Ok(Packet::Reconnect(v)),
                Err(e) => Err(e),
            },
            InternalPacketId::ReskinUnlock => match <ReskinUnlock as NetworkAdapter>::get_be(r) {
                Ok(v) => Ok(Packet::ReskinUnlock(v)),
                Err(e) => Err(e),
            },
            InternalPacketId::ServerPlayerShoot => match <ServerPlayerShoot as NetworkAdapter>::get_be(r) {
                Ok(v) => Ok(Packet::ServerPlayerShoot(v)),
                Err(e) => Err(e),
            },
            InternalPacketId::ShowEffect => match <ShowEffect as NetworkAdapter>::get_be(r) {
                Ok(v) => Ok(Packet::ShowEffect(v)),
                Err(e) => Err(e),
            },
            InternalPacketId::Text => match <Text as NetworkAdapter>::get_be(r) {
                Ok(v) => Ok(Packet::Text(v)),
                Err(e) => Err(e),
            },
            InternalPacketId::TradeAccepted => match <TradeAccepted as NetworkAdapter>::get_be(r) {
                Ok(v) => Ok(Packet::TradeAccepted(v)),
                Err(e) => Err(e),
            },
            InternalPacketId::TradeChanged => match <TradeChanged as NetworkAdapter>::get_be(r) {
                Ok(v) => Ok(Packet::TradeChanged(v)),
                Err(e) => Err(e),
            },
            InternalPacketId::TradeDone => match <TradeDone as NetworkAdapter>::get_be(r) {
                Ok(v) => Ok(Packet::TradeDone(v)),
                Err(e) => Err(e),
            },
            InternalPacketId::TradeRequested => match <TradeRequested as NetworkAdapter>::get_be(r) {
                Ok(v) => Ok(Packet::TradeRequested(v)),
                Err(e) => Err(e),
            },
            InternalPacketId::TradeStart => match <TradeStart as NetworkAdapter>::get_be(r) {
                Ok(v) => Ok(Packet::TradeStart(v)),
                Err(e) => Err(e),
            },
            InternalPacketId::Update => match <Update as NetworkAdapter>::get_be(r) {
                Ok(v) => Ok(Packet::Update(v)),
                Err(e) => Err(e),
            },
            InternalPacketId::VerifyEmail => match <VerifyEmail as NetworkAdapter>::get_be(r) {
                Ok(v) => Ok(Packet::VerifyEmail(v)),
                Err(e) => Err(e),
            },
        }
    }

    /// Encode this packet's payload bytes (everything after the wire ID)
    /// to `out`.
    #[verifier::rlimit(100)]
    #[verifier::spinoff_prover]
    pub fn to_bytes(self, out: &mut Vec<u8>) -> (res: Result<(), Error>)
        ensures
            res == Ok::<(), Error>(()) <==> valid_packet(self.model()),
            valid_packet(self.model()) ==> final(out)@ == old(out)@ + enc_packet(self.model()),
            !valid_packet(self.model()) ==> (res matches Err(Error::InvalidData(_))
                && final(out)@ == old(out)@),
    {
        reveal(enc_packet);
        reveal(valid_packet);
        match self {
            Packet::AcceptTrade(x) => x.put_be(out),
            Packet::ActivePetUpdateRequest(x) => x.put_be(out),
            Packet::AoeAck(x) => x.put_be(out),
            Packet::Buy(x) => x.put_be(out),
            Packet::CancelTrade(x) => x.put_be(out),
            Packet::ChangeGuildRank(x) => x.put_be(out),
            Packet::ChangeTrade(x) => x.put_be(out),
            Packet::CheckCredits(x) => x.put_be(out),
            Packet::ChooseName(x) => x.put_be(out),
            Packet::ClaimLoginRewardMsg(x) => x.put_be(out),
            Packet::Create(x) => x.put_be(out),
            Packet::CreateGuild(x) => x.put_be(out),
            Packet::EditAccountList(x) => x.put_be(out),
            Packet::EnemyHit(x) => x.put_be(out),
            Packet::EnterArena(x) => x.put_be(out),
            Packet::Escape(x) => x.put_be(out),
            Packet::GotoAck(x) => x.put_be(out),
            Packet::GroundDamage(x) => x.put_be(out),
            Packet::GuildInvite(x) => x.put_be(out),
            Packet::GuildRemove(x) => x.put_be(out),
            Packet::Hello(x) => x.put_be(out),
            Packet::InvDrop(x) => x.put_be(out),
            Packet::InvSwap(x) => x.put_be(out),
            Packet::JoinGuild(x) => x.put_be(out),
            Packet::KeyInfoRequest(x) => x.put_be(out),
            Packet::Load(x) => x.put_be(out),
            Packet::Move(x) => x.put_be(out),
            Packet::OtherHit(x) => x.put_be(out),
            Packet::PetChangeFormMsg(x) => x.put_be(out),
            Packet::PetChangeSkinMsg(x) => x.put_be(out),
            Packet::PetUpgradeRequest(x) => x.put_be(out),
            Packet::PlayerHit(x) => x.put_be(out),
            Packet::PlayerShoot(x) => x.put_be(out),
            Packet::PlayerText(x) => x.put_be(out),
            Packet::QuestRedeem(x) => x.put_be(out),
            Packet::QuestRoomMsg(x) => x.put_be(out),
            Packet::Pong(x) => x.put_be(out),
            Packet::RequestTrade(x) => x.put_be(out),
            Packet::ResetDailyQuests(x) => x.put_be(out),
            Packet::Reskin(x) => x.put_be(out),
            Packet::SetCondition(x) => x.put_be(out),
            Packet::ShootAck(x) => x.put_be(out),
            Packet::SquareHit(x) => x.put_be(out),
            Packet::Teleport(x) => x.put_be(out),
            Packet::UpdateAck(x) => x.put_be(out),
            Packet::UseItem(x) => x.put_be(out),
            Packet::UsePortal(x) => x.put_be(out),
            Packet::QuestFetchAsk(x) => x.put_be(out),
            Packet::AcceptArenaDeath(x) => x.put_be(out),
            Packet::AccountList(x) => x.put_be(out),
            Packet::ActivePetUpdate(x) => x.put_be(out),
            Packet::AllyShoot(x) => x.put_be(out),
            Packet::Aoe(x) => x.put_be(out),
            Packet::ArenaDeath(x) => x.put_be(out),
            Packet::BuyResult(x) => x.put_be(out),
            Packet::ClientStat(x) => x.put_be(out),
            Packet::CreateSuccess(x) => x.put_be(out),
            Packet::Damage(x) => x.put_be(out),
            Packet::Death(x) => x.put_be(out),
            Packet::DeletePet(x) => x.put_be(out),
            Packet::EnemyShoot(x) => x.put_be(out),
            Packet::EvolvePet(x) => x.put_be(out),
            Packet::Failure(x) => x.put_be(out),
            Packet::File(x) => x.put_be(out),
            Packet::GlobalNotification(x) => x.put_be(out),
            Packet::Goto(x) => x.put_be(out),
            Packet::GuildResult(x) => x.put_be(out),
            Packet::HatchPet(x) => x.put_be(out),
            Packet::InvResult(x) => x.put_be(out),
            Packet::InvitedToGuild(x) => x.put_be(out),
            Packet::ImminentArenaWave(x) => x.put_be(out),
            Packet::KeyInfoResponse(x) => x.put_be(out),
            Packet::LoginRewardMsg(x) => x.put_be(out),
            Packet::MapInfo(x) => x.put_be(out),
            Packet::NameResult(x) => x.put_be(out),
            Packet::NewAbility(x) => x.put_be(out),
            Packet::NewTick(x) => x.put_be(out),
            Packet::Notification(x) => x.put_be(out),
            Packet::PasswordPrompt(x) => x.put_be(out),
            Packet::PetYardUpdate(x) => x.put_be(out),
            Packet::Pic(x) => x.put_be(out),
            Packet::Ping(x) => x.put_be(out),
            Packet::PlaySound(x) => x.put_be(out),
            Packet::QuestObjId(x) => x.put_be(out),
            Packet::QuestFetchResponse(x) => x.put_be(out),
            Packet::QuestRedeemResponse(x) => x.put_be(out),
            Packet::RealmHeroLeftMsg(x) => x.put_be(out),
            Packet::Reconnect(x) => x.put_be(out),
            Packet::ReskinUnlock(x) => x.put_be(out),
            Packet::ServerPlayerShoot(x) => x.put_be(out),
            Packet::ShowEffect(x) => x.put_be(out),
            Packet::Text(x) => x.put_be(out),
            Packet::TradeAccepted(x) => x.put_be(out),
            Packet::TradeChanged(x) => x.put_be(out),
            Packet::TradeDone(x) => x.put_be(out),
            Packet::TradeRequested(x) => x.put_be(out),
            Packet::TradeStart(x) => x.put_be(out),
            Packet::Update(x) => x.put_be(out),
            Packet::VerifyEmail(x) => x.put_be(out),
        }
    }

    /// The name of this packet's variant, for diagnostics.
    pub fn get_name(&self) -> (name: &'static str)
        ensures
            name@ == packet_name(packet_model_id(self.model())),
    {
        self.get_internal_id().get_name()
    }
}

impl InternalPacketId {
    /// Whether messages of this variant are sent by the server.
    pub fn is_server(self) -> (res: bool)
        ensures
            res == is_server_id(self),
    {
        match self {
            InternalPacketId::AcceptTrade => false,
            InternalPacketId::ActivePetUpdateRequest => false,
            InternalPacketId::AoeAck => false,
            InternalPacketId::Buy => false,
            InternalPacketId::CancelTrade => false,
            InternalPacketId::ChangeGuildRank => false,
            InternalPacketId::ChangeTrade => false,
            InternalPacketId::CheckCredits => false,
            InternalPacketId::ChooseName => false,
            InternalPacketId::ClaimLoginRewardMsg => false,
            InternalPacketId::Create => false,
            InternalPacketId::CreateGuild => false,
            InternalPacketId::EditAccountList => false,
            InternalPacketId::EnemyHit => false,
            InternalPacketId::EnterArena => false,
            InternalPacketId::Escape => false,
            InternalPacketId::GotoAck => false,
            InternalPacketId::GroundDamage => false,
            InternalPacketId::GuildInvite => false,
            InternalPacketId::GuildRemove => false,
            InternalPacketId::Hello => false,
            InternalPacketId::InvDrop => false,
            InternalPacketId::InvSwap => false,
            InternalPacketId::JoinGuild => false,
            InternalPacketId::KeyInfoRequest => false,
            InternalPacketId::Load => false,
            InternalPacketId::Move => false,
            InternalPacketId::OtherHit => false,
            InternalPacketId::PetChangeFormMsg => false,
            InternalPacketId::PetChangeSkinMsg => false,
            InternalPacketId::PetUpgradeRequest => false,
            InternalPacketId::PlayerHit => false,
            InternalPacketId::PlayerShoot => false,
            InternalPacketId::PlayerText => false,
            InternalPacketId::QuestRedeem => false,
            InternalPacketId::QuestRoomMsg => false,
            InternalPacketId::Pong => false,
            InternalPacketId::RequestTrade => false,
            InternalPacketId::ResetDailyQuests => false,
            InternalPacketId::Reskin => false,
            InternalPacketId::SetCondition => false,
            InternalPacketId::ShootAck => false,
            InternalPacketId::SquareHit => false,
            InternalPacketId::Teleport => false,
            InternalPacketId::UpdateAck => false,
            InternalPacketId::UseItem => false,
            InternalPacketId::UsePortal => false,
            InternalPacketId::QuestFetchAsk => false,
            InternalPacketId::AcceptArenaDeath => false,
            InternalPacketId::AccountList => true,
            InternalPacketId::ActivePetUpdate => true,
            InternalPacketId::AllyShoot => true,
            InternalPacketId::Aoe => true,
            InternalPacketId::ArenaDeath => true,
            InternalPacketId::BuyResult => true,
            InternalPacketId::ClientStat => true,
            InternalPacketId::CreateSuccess => true,
            InternalPacketId::Damage => true,
            InternalPacketId::Death => true,
            InternalPacketId::DeletePet => true,
            InternalPacketId::EnemyShoot => true,
            InternalPacketId::EvolvePet => true,
            InternalPacketId::Failure => true,
            InternalPacketId::File => true,
            InternalPacketId::GlobalNotification => true,
            InternalPacketId::Goto => true,
            InternalPacketId::GuildResult => true,
            InternalPacketId::HatchPet => true,
            InternalPacketId::InvResult => true,
            InternalPacketId::InvitedToGuild => true,
            InternalPacketId::ImminentArenaWave => true,
            InternalPacketId::KeyInfoResponse => true,
            InternalPacketId::LoginRewardMsg => true,
            InternalPacketId::MapInfo => true,
            InternalPacketId::NameResult => true,
            InternalPacketId::NewAbility => true,
            InternalPacketId::NewTick => true,
            InternalPacketId::Notification => true,
            InternalPacketId::PasswordPrompt => true,
            InternalPacketId::PetYardUpdate => true,
            InternalPacketId::Pic => true,
            InternalPacketId::Ping => true,
            InternalPacketId::PlaySound => true,
            InternalPacketId::QuestObjId => true,
            InternalPacketId::QuestFetchResponse => true,
            InternalPacketId::QuestRedeemResponse => true,
            InternalPacketId::RealmHeroLeftMsg => true,
            InternalPacketId::Reconnect => true,
            InternalPacketId::ReskinUnlock => true,
            InternalPacketId::ServerPlayerShoot => true,
            InternalPacketId::ShowEffect => true,
            InternalPacketId::Text => true,
            InternalPacketId::TradeAccepted => true,
            InternalPacketId::TradeChanged => true,
            InternalPacketId::TradeDone => true,
            InternalPacketId::TradeRequested => true,
            InternalPacketId::TradeStart => true,
            InternalPacketId::Update => true,
            InternalPacketId::VerifyEmail => true,
        }
    }

    /// Whether messages of this variant are sent by the client.
    pub fn is_client(self) -> (res: bool)
        ensures
            res == !is_server_id(self),
    {
        !self.is_server()
    }

    /// The name of this message variant, for diagnostics.
    pub fn get_name(self) -> (name: &'static str)
        ensures
            name@ == packet_name(self),
    {
        match self {
            InternalPacketId::AcceptTrade => "AcceptTrade",
            InternalPacketId::ActivePetUpdateRequest => "ActivePetUpdateRequest",
            InternalPacketId::AoeAck => "AoeAck",
            InternalPacketId::Buy => "Buy",
            InternalPacketId::CancelTrade => "CancelTrade",
            InternalPacketId::ChangeGuildRank => "ChangeGuildRank",
            InternalPacketId::ChangeTrade => "ChangeTrade",
            InternalPacketId::CheckCredits => "CheckCredits",
            InternalPacketId::ChooseName => "ChooseName",
            InternalPacketId::ClaimLoginRewardMsg => "ClaimLoginRewardMsg",
            InternalPacketId::Create => "Create",
            InternalPacketId::CreateGuild => "CreateGuild",
            InternalPacketId::EditAccountList => "EditAccountList",
            InternalPacketId::EnemyHit => "EnemyHit",
            InternalPacketId::EnterArena => "EnterArena",
            InternalPacketId::Escape => "Escape",
            InternalPacketId::GotoAck => "GotoAck",
            InternalPacketId::GroundDamage => "GroundDamage",
            InternalPacketId::GuildInvite => "GuildInvite",
            InternalPacketId::GuildRemove => "GuildRemove",
            InternalPacketId::Hello => "Hello",
            InternalPacketId::InvDrop => "InvDrop",
            InternalPacketId::InvSwap => "InvSwap",
            InternalPacketId::JoinGuild => "JoinGuild",
            InternalPacketId::KeyInfoRequest => "KeyInfoRequest",
            InternalPacketId::Load => "Load",
            InternalPacketId::Move => "Move",
            InternalPacketId::OtherHit => "OtherHit",
            InternalPacketId::PetChangeFormMsg => "PetChangeFormMsg",
            InternalPacketId::PetChangeSkinMsg => "PetChangeSkinMsg",
            InternalPacketId::PetUpgradeRequest => "PetUpgradeRequest",
            InternalPacketId::PlayerHit => "PlayerHit",
            InternalPacketId::PlayerShoot => "PlayerShoot",
            InternalPacketId::PlayerText => "PlayerText",
            InternalPacketId::QuestRedeem => "QuestRedeem",
            InternalPacketId::QuestRoomMsg => "QuestRoomMsg",
            InternalPacketId::Pong => "Pong",
            InternalPacketId::RequestTrade => "RequestTrade",
            InternalPacketId::ResetDailyQuests => "ResetDailyQuests",
            InternalPacketId::Reskin => "Reskin",
            InternalPacketId::SetCondition => "SetCondition",
            InternalPacketId::ShootAck => "ShootAck",
            InternalPacketId::SquareHit => "SquareHit",
            InternalPacketId::Teleport => "Teleport",
            InternalPacketId::UpdateAck => "UpdateAck",
            InternalPacketId::UseItem => "UseItem",
            InternalPacketId::UsePortal => "UsePortal",
            InternalPacketId::QuestFetchAsk => "QuestFetchAsk",
            InternalPacketId::AcceptArenaDeath => "AcceptArenaDeath",
            InternalPacketId::AccountList => "AccountList",
            InternalPacketId::ActivePetUpdate => "ActivePetUpdate",
            InternalPacketId::AllyShoot => "AllyShoot",
            InternalPacketId::Aoe => "Aoe",
            InternalPacketId::ArenaDeath => "ArenaDeath",
            InternalPacketId::BuyResult => "BuyResult",
            InternalPacketId::ClientStat => "ClientStat",
            InternalPacketId::CreateSuccess => "CreateSuccess",
            InternalPacketId::Damage => "Damage",
            InternalPacketId::Death => "Death",
            InternalPacketId::DeletePet => "DeletePet",
            InternalPacketId::EnemyShoot => "EnemyShoot",
            InternalPacketId::EvolvePet => "EvolvePet",
            InternalPacketId::Failure => "Failure",
            InternalPacketId::File => "File",
            InternalPacketId::GlobalNotification => "GlobalNotification",
            InternalPacketId::Goto => "Goto",
            InternalPacketId::GuildResult => "GuildResult",
            InternalPacketId::HatchPet => "HatchPet",
            InternalPacketId::InvResult => "InvResult",
            InternalPacketId::InvitedToGuild => "InvitedToGuild",
            InternalPacketId::ImminentArenaWave => "ImminentArenaWave",
            InternalPacketId::KeyInfoResponse => "KeyInfoResponse",
            InternalPacketId::LoginRewardMsg => "LoginRewardMsg",
            InternalPacketId::MapInfo => "MapInfo",
            InternalPacketId::NameResult => "NameResult",
            InternalPacketId::NewAbility => "NewAbility",
            InternalPacketId::NewTick => "NewTick",
            InternalPacketId::Notification => "Notification",
            InternalPacketId::PasswordPrompt => "PasswordPrompt",
            InternalPacketId::PetYardUpdate => "PetYardUpdate",
            InternalPacketId::Pic => "Pic",
            InternalPacketId::Ping => "Ping",
            InternalPacketId::PlaySound => "PlaySound",
            InternalPacketId::QuestObjId => "QuestObjId",
            InternalPacketId::QuestFetchResponse => "QuestFetchResponse",
            InternalPacketId::QuestRedeemResponse => "QuestRedeemResponse",
            InternalPacketId::RealmHeroLeftMsg => "RealmHeroLeftMsg",
            InternalPacketId::Reconnect => "Reconnect",
            InternalPacketId::ReskinUnlock => "ReskinUnlock",
            InternalPacketId::ServerPlayerShoot => "ServerPlayerShoot",
            InternalPacketId::ShowEffect => "ShowEffect",
            InternalPacketId::Text => "Text",
            InternalPacketId::TradeAccepted => "TradeAccepted",
            InternalPacketId::TradeChanged => "TradeChanged",
            InternalPacketId::TradeDone => "TradeDone",
            InternalPacketId::TradeRequested => "TradeRequested",
            InternalPacketId::TradeStart => "TradeStart",
            InternalPacketId::Update => "Update",
            InternalPacketId::VerifyEmail => "VerifyEmail",
        }
    }

}

proof fn lemma_dec_enc_accept_trade(x: AcceptTradeModel)
    requires
        valid_packet(PacketModel::AcceptTrade(x)),
    ensures
        dec_packet(InternalPacketId::AcceptTrade, enc_packet(PacketModel::AcceptTrade(x))) == Ok::<
            (PacketModel, int),
            Error,
        >((PacketModel::AcceptTrade(x), enc_packet(PacketModel::AcceptTrade(x)).len() as int)),
{
    reveal(dec_packet);
    reveal(enc_packet);
    reveal(valid_packet);
    <AcceptTrade as NetworkAdapter>::lemma_dec_enc(x, Seq::empty());
    crate::adapters::lemma_concat_empty(<AcceptTrade as NetworkAdapter>::enc_model(x));
}

proof fn lemma_dec_enc_active_pet_update_request(x: ActivePetUpdateRequest)
    requires
        valid_packet(PacketModel::ActivePetUpdateRequest(x)),
    ensures
        dec_packet(InternalPacketId::ActivePetUpdateRequest, enc_packet(PacketModel::ActivePetUpdateRequest(x))) == Ok::<
            (PacketModel, int),
            Error,
        >((PacketModel::ActivePetUpdateRequest(x), enc_packet(PacketModel::ActivePetUpdateRequest(x)).len() as int)),
{
    reveal(dec_packet);
    reveal(enc_packet);
    reveal(valid_packet);
    <ActivePetUpdateRequest as NetworkAdapter>::lemma_dec_enc(x, Seq::empty());
    crate::adapters::lemma_concat_empty(<ActivePetUpdateRequest as NetworkAdapter>::enc_model(x));
}

proof fn lemma_dec_enc_aoe_ack(x: AoeAck)
    requires
        valid_packet(PacketModel::AoeAck(x)),
    ensures
        dec_packet(InternalPacketId::AoeAck, enc_packet(PacketModel::AoeAck(x))) == Ok::<
            (PacketModel, int),
            Error,
        >((PacketModel::AoeAck(x), enc_packet(PacketModel::AoeAck(x)).len() as int)),
{
    reveal(dec_packet);
    reveal(enc_packet);
    reveal(valid_packet);
    <AoeAck as NetworkAdapter>::lemma_dec_enc(x, Seq::empty());
    crate::adapters::lemma_concat_empty(<AoeAck as NetworkAdapter>::enc_model(x));
}

proof fn lemma_dec_enc_buy(x: Buy)
    requires
        valid_packet(PacketModel::Buy(x)),
    ensures
        dec_packet(InternalPacketId::Buy, enc_packet(PacketModel::Buy(x))) == Ok::<
            (PacketModel, int),
            Error,
        >((PacketModel::Buy(x), enc_packet(PacketModel::Buy(x)).len() as int)),
{
    reveal(dec_packet);
    reveal(enc_packet);
    reveal(valid_packet);
    <Buy as NetworkAdapter>::lemma_dec_enc(x, Seq::empty());
    crate::adapters::lemma_concat_empty(<Buy as NetworkAdapter>::enc_model(x));
}

proof fn lemma_dec_enc_cancel_trade(x: CancelTrade)
    requires
        valid_packet(PacketModel::CancelTrade(x)),
    ensures
        dec_packet(InternalPacketId::CancelTrade, enc_packet(PacketModel::CancelTrade(x))) == Ok::<
            (PacketModel, int),
            Error,
        >((PacketModel::CancelTrade(x), enc_packet(PacketModel::CancelTrade(x)).len() as int)),
{
    reveal(dec_packet);
    reveal(enc_packet);
    reveal(valid_packet);
    <CancelTrade as NetworkAdapter>::lemma_dec_enc(x, Seq::empty());
    crate::adapters::lemma_concat_empty(<CancelTrade as NetworkAdapter>::enc_model(x));
}

proof fn lemma_dec_enc_change_guild_rank(x: ChangeGuildRankModel)
    requires
        valid_packet(PacketModel::ChangeGuildRank(x)),
    ensures
        dec_packet(InternalPacketId::ChangeGuildRank, enc_packet(PacketModel::ChangeGuildRank(x))) == Ok::<
            (PacketModel, int),
            Error,
        >((PacketModel::ChangeGuildRank(x), enc_packet(PacketModel::ChangeGuildRank(x)).len() as int)),
{
    reveal(dec_packet);
    reveal(enc_packet);
    reveal(valid_packet);
    <ChangeGuildRank as NetworkAdapter>::lemma_dec_enc(x, Seq::empty());
    crate::adapters::lemma_concat_empty(<ChangeGuildRank as NetworkAdapter>::enc_model(x));
}

proof fn lemma_dec_enc_change_trade(x: ChangeTradeModel)
    requires
        valid_packet(PacketModel::ChangeTrade(x)),
    ensures
        dec_packet(InternalPacketId::ChangeTrade, enc_packet(PacketModel::ChangeTrade(x))) == Ok::<
            (PacketModel, int),
            Error,
        >((PacketModel::ChangeTrade(x), enc_packet(PacketModel::ChangeTrade(x)).len() as int)),
{
    reveal(dec_packet);
    reveal(enc_packet);
    reveal(valid_packet);
    <ChangeTrade as NetworkAdapter>::lemma_dec_enc(x, Seq::empty());
    crate::adapters::lemma_concat_empty(<ChangeTrade as NetworkAdapter>::enc_model(x));
}

proof fn lemma_dec_enc_check_credits(x: CheckCredits)
    requires
        valid_packet(PacketModel::CheckCredits(x)),
    ensures
        dec_packet(InternalPacketId::CheckCredits, enc_packet(PacketModel::CheckCredits(x))) == Ok::<
            (PacketModel, int),
            Error,
        >((PacketModel::CheckCredits(x), enc_packet(PacketModel::CheckCredits(x)).len() as int)),
{
    reveal(dec_packet);
    reveal(enc_packet);
    reveal(valid_packet);
    <CheckCredits as NetworkAdapter>::lemma_dec_enc(x, Seq::empty());
    crate::adapters::lemma_concat_empty(<CheckCredits as NetworkAdapter>::enc_model(x));
}

proof fn lemma_dec_enc_choose_name(x: ChooseNameModel)
    requires
        valid_packet(PacketModel::ChooseName(x)),
    ensures
        dec_packet(InternalPacketId::ChooseName, enc_packet(PacketModel::ChooseName(x))) == Ok::<
            (PacketModel, int),
            Error,
        >((PacketModel::ChooseName(x), enc_packet(PacketModel::ChooseName(x)).len() as int)),
{
    reveal(dec_packet);
    reveal(enc_packet);
    reveal(valid_packet);
    <ChooseName as NetworkAdapter>::lemma_dec_enc(x, Seq::empty());
    crate::adapters::lemma_concat_empty(<ChooseName as NetworkAdapter>::enc_model(x));
}

proof fn lemma_dec_enc_claim_login_reward_msg(x: ClaimLoginRewardMsgModel)
    requires
        valid_packet(PacketModel::ClaimLoginRewardMsg(x)),
    ensures
        dec_packet(InternalPacketId::ClaimLoginRewardMsg, enc_packet(PacketModel::ClaimLoginRewardMsg(x))) == Ok::<
            (PacketModel, int),
            Error,
        >((PacketModel::ClaimLoginRewardMsg(x), enc_packet(PacketModel::ClaimLoginRewardMsg(x)).len() as int)),
{
    reveal(dec_packet);
    reveal(enc_packet);
    reveal(valid_packet);
    <ClaimLoginRewardMsg as NetworkAdapter>::lemma_dec_enc(x, Seq::empty());
    crate::adapters::lemma_concat_empty(<ClaimLoginRewardMsg as NetworkAdapter>::enc_model(x));
}

proof fn lemma_dec_enc_create(x: Create)
    requires
        valid_packet(PacketModel::Create(x)),
    ensures
        dec_packet(InternalPacketId::Create, enc_packet(PacketModel::Create(x))) == Ok::<
            (PacketModel, int),
            Error,
        >((PacketModel::Create(x), enc_packet(PacketModel::Create(x)).len() as int)),
{
    reveal(dec_packet);
    reveal(enc_packet);
    reveal(valid_packet);
    <Create as NetworkAdapter>::lemma_dec_enc(x, Seq::empty());
    crate::adapters::lemma_concat_empty(<Create as NetworkAdapter>::enc_model(x));
}

proof fn lemma_dec_enc_create_guild(x: CreateGuildModel)
    requires
        valid_packet(PacketModel::CreateGuild(x)),
    ensures
        dec_packet(InternalPacketId::CreateGuild, enc_packet(PacketModel::CreateGuild(x))) == Ok::<
            (PacketModel, int),
            Error,
        >((PacketModel::CreateGuild(x), enc_packet(PacketModel::CreateGuild(x)).len() as int)),
{
    reveal(dec_packet);
    reveal(enc_packet);
    reveal(valid_packet);
    <CreateGuild as NetworkAdapter>::lemma_dec_enc(x, Seq::empty());
    crate::adapters::lemma_concat_empty(<CreateGuild as NetworkAdapter>::enc_model(x));
}

proof fn lemma_dec_enc_edit_account_list(x: EditAccountList)
    requires
        valid_packet(PacketModel::EditAccountList(x)),
    ensures
        dec_packet(InternalPacketId::EditAccountList, enc_packet(PacketModel::EditAccountList(x))) == Ok::<
            (PacketModel, int),
            Error,
        >((PacketModel::EditAccountList(x), enc_packet(PacketModel::EditAccountList(x)).len() as int)),
{
    reveal(dec_packet);
    reveal(enc_packet);
    reveal(valid_packet);
    <EditAccountList as NetworkAdapter>::lemma_dec_enc(x, Seq::empty());
    crate::adapters::lemma_concat_empty(<EditAccountList as NetworkAdapter>::enc_model(x));
}

proof fn lemma_dec_enc_enemy_hit(x: EnemyHit)
    requires
        valid_packet(PacketModel::EnemyHit(x)),
    ensures
        dec_packet(InternalPacketId::EnemyHit, enc_packet(PacketModel::EnemyHit(x))) == Ok::<
            (PacketModel, int),
            Error,
        >((PacketModel::EnemyHit(x), enc_packet(PacketModel::EnemyHit(x)).len() as int)),
{
    reveal(dec_packet);
    reveal(enc_packet);
    reveal(valid_packet);
    <EnemyHit as NetworkAdapter>::lemma_dec_enc(x, Seq::empty());
    crate::adapters::lemma_concat_empty(<EnemyHit as NetworkAdapter>::enc_model(x));
}

proof fn lemma_dec_enc_enter_arena(x: EnterArena)
    requires
        valid_packet(PacketModel::EnterArena(x)),
    ensures
        dec_packet(InternalPacketId::EnterArena, enc_packet(PacketModel::EnterArena(x))) == Ok::<
            (PacketModel, int),
            Error,
        >((PacketModel::EnterArena(x), enc_packet(PacketModel::EnterArena(x)).len() as int)),
{
    reveal(dec_packet);
    reveal(enc_packet);
    reveal(valid_packet);
    <EnterArena as NetworkAdapter>::lemma_dec_enc(x, Seq::empty());
    crate::adapters::lemma_concat_empty(<EnterArena as NetworkAdapter>::enc_model(x));
}

proof fn lemma_dec_enc_escape(x: Escape)
    requires
        valid_packet(PacketModel::Escape(x)),
    ensures
        dec_packet(InternalPacketId::Escape, enc_packet(PacketModel::Escape(x))) == Ok::<
            (PacketModel, int),
            Error,
        >((PacketModel::Escape(x), enc_packet(PacketModel::Escape(x)).len() as int)),
{
    reveal(dec_packet);
    reveal(enc_packet);
    reveal(valid_packet);
    <Escape as NetworkAdapter>::lemma_dec_enc(x, Seq::empty());
    crate::adapters::lemma_concat_empty(<Escape as NetworkAdapter>::enc_model(x));
}

proof fn lemma_dec_enc_goto_ack(x: GotoAck)
    requires
        valid_packet(PacketModel::GotoAck(x)),
    ensures
        dec_packet(InternalPacketId::GotoAck, enc_packet(PacketModel::GotoAck(x))) == Ok::<
            (PacketModel, int),
            Error,
        >((PacketModel::GotoAck(x), enc_packet(PacketModel::GotoAck(x)).len() as int)),
{
    reveal(dec_packet);
    reveal(enc_packet);
    reveal(valid_packet);
    <GotoAck as NetworkAdapter>::lemma_dec_enc(x, Seq::empty());
    crate::adapters::lemma_concat_empty(<GotoAck as NetworkAdapter>::enc_model(x));
}

proof fn lemma_dec_enc_ground_damage(x: GroundDamage)
    requires
        valid_packet(PacketModel::GroundDamage(x)),
    ensures
        dec_packet(InternalPacketId::GroundDamage, enc_packet(PacketModel::GroundDamage(x))) == Ok::<
            (PacketModel, int),
            Error,
        >((PacketModel::GroundDamage(x), enc_packet(PacketModel::GroundDamage(x)).len() as int)),
{
    reveal(dec_packet);
    reveal(enc_packet);
    reveal(valid_packet);
    <GroundDamage as NetworkAdapter>::lemma_dec_enc(x, Seq::empty());
    crate::adapters::lemma_concat_empty(<GroundDamage as NetworkAdapter>::enc_model(x));
}

proof fn lemma_dec_enc_guild_invite(x: GuildInviteModel)
    requires
        valid_packet(PacketModel::GuildInvite(x)),
    ensures
        dec_packet(InternalPacketId::GuildInvite, enc_packet(PacketModel::GuildInvite(x))) == Ok::<
            (PacketModel, int),
            Error,
        >((PacketModel::GuildInvite(x), enc_packet(PacketModel::GuildInvite(x)).len() as int)),
{
    reveal(dec_packet);
    reveal(enc_packet);
    reveal(valid_packet);
    <GuildInvite as NetworkAdapter>::lemma_dec_enc(x, Seq::empty());
    crate::adapters::lemma_concat_empty(<GuildInvite as NetworkAdapter>::enc_model(x));
}

proof fn lemma_dec_enc_guild_remove(x: GuildRemoveModel)
    requires
        valid_packet(PacketModel::GuildRemove(x)),
    ensures
        dec_packet(InternalPacketId::GuildRemove, enc_packet(PacketModel::GuildRemove(x))) == Ok::<
            (PacketModel, int),
            Error,
        >((PacketModel::GuildRemove(x), enc_packet(PacketModel::GuildRemove(x)).len() as int)),
{
    reveal(dec_packet);
    reveal(enc_packet);
    reveal(valid_packet);
    <GuildRemove as NetworkAdapter>::lemma_dec_enc(x, Seq::empty());
    crate::adapters::lemma_concat_empty(<GuildRemove as NetworkAdapter>::enc_model(x));
}

proof fn lemma_dec_enc_hello(x: HelloModel)
    requires
        valid_packet(PacketModel::Hello(x)),
    ensures
        dec_packet(InternalPacketId::Hello, enc_packet(PacketModel::Hello(x))) == Ok::<
            (PacketModel, int),
            Error,
        >((PacketModel::Hello(x), enc_packet(PacketModel::Hello(x)).len() as int)),
{
    reveal(dec_packet);
    reveal(enc_packet);
    reveal(valid_packet);
    <Hello as NetworkAdapter>::lemma_dec_enc(x, Seq::empty());
    crate::adapters::lemma_concat_empty(<Hello as NetworkAdapter>::enc_model(x));
}

proof fn lemma_dec_enc_inv_drop(x: InvDrop)
    requires
        valid_packet(PacketModel::InvDrop(x)),
    ensures
        dec_packet(InternalPacketId::InvDrop, enc_packet(PacketModel::InvDrop(x))) == Ok::<
            (PacketModel, int),
            Error,
        >((PacketModel::InvDrop(x), enc_packet(PacketModel::InvDrop(x)).len() as int)),
{
    reveal(dec_packet);
    reveal(enc_packet);
    reveal(valid_packet);
    <InvDrop as NetworkAdapter>::lemma_dec_enc(x, Seq::empty());
    crate::adapters::lemma_concat_empty(<InvDrop as NetworkAdapter>::enc_model(x));
}

proof fn lemma_dec_enc_inv_swap(x: InvSwap)
    requires
        valid_packet(PacketModel::InvSwap(x)),
    ensures
        dec_packet(InternalPacketId::InvSwap, enc_packet(PacketModel::InvSwap(x))) == Ok::<
            (PacketModel, int),
            Error,
        >((PacketModel::InvSwap(x), enc_packet(PacketModel::InvSwap(x)).len() as int)),
{
    reveal(dec_packet);
    reveal(enc_packet);
    reveal(valid_packet);
    <InvSwap as NetworkAdapter>::lemma_dec_enc(x, Seq::empty());
    crate::adapters::lemma_concat_empty(<InvSwap as NetworkAdapter>::enc_model(x));
}

proof fn lemma_dec_enc_join_guild(x: JoinGuildModel)
    requires
        valid_packet(PacketModel::JoinGuild(x)),
    ensures
        dec_packet(InternalPacketId::JoinGuild, enc_packet(PacketModel::JoinGuild(x))) == Ok::<
            (PacketModel, int),
            Error,
        >((PacketModel::JoinGuild(x), enc_packet(PacketModel::JoinGuild(x)).len() as int)),
{
    reveal(dec_packet);
    reveal(enc_packet);
    reveal(valid_packet);
    <JoinGuild as NetworkAdapter>::lemma_dec_enc(x, Seq::empty());
    crate::adapters::lemma_concat_empty(<JoinGuild as NetworkAdapter>::enc_model(x));
}

proof fn lemma_dec_enc_key_info_request(x: KeyInfoRequest)
    requires
        valid_packet(PacketModel::KeyInfoRequest(x)),
    ensures
        dec_packet(InternalPacketId::KeyInfoRequest, enc_packet(PacketModel::KeyInfoRequest(x))) == Ok::<
            (PacketModel, int),
            Error,
        >((PacketModel::KeyInfoRequest(x), enc_packet(PacketModel::KeyInfoRequest(x)).len() as int)),
{
    reveal(dec_packet);
    reveal(enc_packet);
    reveal(valid_packet);
    <KeyInfoRequest as NetworkAdapter>::lemma_dec_enc(x, Seq::empty());
    crate::adapters::lemma_concat_empty(<KeyInfoRequest as NetworkAdapter>::enc_model(x));
}

proof fn lemma_dec_enc_load(x: Load)
    requires
        valid_packet(PacketModel::Load(x)),
    ensures
        dec_packet(InternalPacketId::Load, enc_packet(PacketModel::Load(x))) == Ok::<
            (PacketModel, int),
            Error,
        >((PacketModel::Load(x), enc_packet(PacketModel::Load(x)).len() as int)),
{
    reveal(dec_packet);
    reveal(enc_packet);
    reveal(valid_packet);
    <Load as NetworkAdapter>::lemma_dec_enc(x, Seq::empty());
    crate::adapters::lemma_concat_empty(<Load as NetworkAdapter>::enc_model(x));
}

proof fn lemma_dec_enc_move(x: MoveModel)
    requires
        valid_packet(PacketModel::Move(x)),
    ensures
        dec_packet(InternalPacketId::Move, enc_packet(PacketModel::Move(x))) == Ok::<
            (PacketModel, int),
            Error,
        >((PacketModel::Move(x), enc_packet(PacketModel::Move(x)).len() as int)),
{
    reveal(dec_packet);
    reveal(enc_packet);
    reveal(valid_packet);
    <Move as NetworkAdapter>::lemma_dec_enc(x, Seq::empty());
    crate::adapters::lemma_concat_empty(<Move as NetworkAdapter>::enc_model(x));
}

proof fn lemma_dec_enc_other_hit(x: OtherHit)
    requires
        valid_packet(PacketModel::OtherHit(x)),
    ensures
        dec_packet(InternalPacketId::OtherHit, enc_packet(PacketModel::OtherHit(x))) == Ok::<
            (PacketModel, int),
            Error,
        >((PacketModel::OtherHit(x), enc_packet(PacketModel::OtherHit(x)).len() as int)),
{
    reveal(dec_packet);
    reveal(enc_packet);
    reveal(valid_packet);
    <OtherHit as NetworkAdapter>::lemma_dec_enc(x, Seq::empty());
    crate::adapters::lemma_concat_empty(<OtherHit as NetworkAdapter>::enc_model(x));
}

proof fn lemma_dec_enc_pet_change_form_msg(x: PetChangeFormMsg)
    requires
        valid_packet(PacketModel::PetChangeFormMsg(x)),
    ensures
        dec_packet(InternalPacketId::PetChangeFormMsg, enc_packet(PacketModel::PetChangeFormMsg(x))) == Ok::<
            (PacketModel, int),
            Error,
        >((PacketModel::PetChangeFormMsg(x), enc_packet(PacketModel::PetChangeFormMsg(x)).len() as int)),
{
    reveal(dec_packet);
    reveal(enc_packet);
    reveal(valid_packet);
    <PetChangeFormMsg as NetworkAdapter>::lemma_dec_enc(x, Seq::empty());
    crate::adapters::lemma_concat_empty(<PetChangeFormMsg as NetworkAdapter>::enc_model(x));
}

proof fn lemma_dec_enc_pet_change_skin_msg(x: PetChangeSkinMsg)
    requires
        valid_packet(PacketModel::PetChangeSkinMsg(x)),
    ensures
        dec_packet(InternalPacketId::PetChangeSkinMsg, enc_packet(PacketModel::PetChangeSkinMsg(x))) == Ok::<
            (PacketModel, int),
            Error,
        >((PacketModel::PetChangeSkinMsg(x), enc_packet(PacketModel::PetChangeSkinMsg(x)).len() as int)),
{
    reveal(dec_packet);
    reveal(enc_packet);
    reveal(valid_packet);
    <PetChangeSkinMsg as NetworkAdapter>::lemma_dec_enc(x, Seq::empty());
    crate::adapters::lemma_concat_empty(<PetChangeSkinMsg as NetworkAdapter>::enc_model(x));
}

proof fn lemma_dec_enc_pet_upgrade_request(x: PetUpgradeRequestModel)
    requires
        valid_packet(PacketModel::PetUpgradeRequest(x)),
    ensures
        dec_packet(InternalPacketId::PetUpgradeRequest, enc_packet(PacketModel::PetUpgradeRequest(x))) == Ok::<
            (PacketModel, int),
            Error,
        >((PacketModel::PetUpgradeRequest(x), enc_packet(PacketModel::PetUpgradeRequest(x)).len() as int)),
{
    reveal(dec_packet);
    reveal(enc_packet);
    reveal(valid_packet);
    <PetUpgradeRequest as NetworkAdapter>::lemma_dec_enc(x, Seq::empty());
    crate::adapters::lemma_concat_empty(<PetUpgradeRequest as NetworkAdapter>::enc_model(x));
}

proof fn lemma_dec_enc_player_hit(x: PlayerHit)
    requires
        valid_packet(PacketModel::PlayerHit(x)),
    ensures
        dec_packet(InternalPacketId::PlayerHit, enc_packet(PacketModel::PlayerHit(x))) == Ok::<
            (PacketModel, int),
            Error,
        >((PacketModel::PlayerHit(x), enc_packet(PacketModel::PlayerHit(x)).len() as int)),
{
    reveal(dec_packet);
    reveal(enc_packet);
    reveal(valid_packet);
    <PlayerHit as NetworkAdapter>::lemma_dec_enc(x, Seq::empty());
    crate::adapters::lemma_concat_empty(<PlayerHit as NetworkAdapter>::enc_model(x));
}

proof fn lemma_dec_enc_player_shoot(x: PlayerShoot)
    requires
        valid_packet(PacketModel::PlayerShoot(x)),
    ensures
        dec_packet(InternalPacketId::PlayerShoot, enc_packet(PacketModel::PlayerShoot(x))) == Ok::<
            (PacketModel, int),
            Error,
        >((PacketModel::PlayerShoot(x), enc_packet(PacketModel::PlayerShoot(x)).len() as int)),
{
    reveal(dec_packet);
    reveal(enc_packet);
    reveal(valid_packet);
    <PlayerShoot as NetworkAdapter>::lemma_dec_enc(x, Seq::empty());
    crate::adapters::lemma_concat_empty(<PlayerShoot as NetworkAdapter>::enc_model(x));
}

proof fn lemma_dec_enc_player_text(x: PlayerTextModel)
    requires
        valid_packet(PacketModel::PlayerText(x)),
    ensures
        dec_packet(InternalPacketId::PlayerText, enc_packet(PacketModel::PlayerText(x))) == Ok::<
            (PacketModel, int),
            Error,
        >((PacketModel::PlayerText(x), enc_packet(PacketModel::PlayerText(x)).len() as int)),
{
    reveal(dec_packet);
    reveal(enc_packet);
    reveal(valid_packet);
    <PlayerText as NetworkAdapter>::lemma_dec_enc(x, Seq::empty());
    crate::adapters::lemma_concat_empty(<PlayerText as NetworkAdapter>::enc_model(x));
}

proof fn lemma_dec_enc_quest_redeem(x: QuestRedeemModel)
    requires
        valid_packet(PacketModel::QuestRedeem(x)),
    ensures
        dec_packet(InternalPacketId::QuestRedeem, enc_packet(PacketModel::QuestRedeem(x))) == Ok::<
            (PacketModel, int),
            Error,
        >((PacketModel::QuestRedeem(x), enc_packet(PacketModel::QuestRedeem(x)).len() as int)),
{
    reveal(dec_packet);
    reveal(enc_packet);
    reveal(valid_packet);
    <QuestRedeem as NetworkAdapter>::lemma_dec_enc(x, Seq::empty());
    crate::adapters::lemma_concat_empty(<QuestRedeem as NetworkAdapter>::enc_model(x));
}

proof fn lemma_dec_enc_quest_room_msg(x: QuestRoomMsg)
    requires
        valid_packet(PacketModel::QuestRoomMsg(x)),
    ensures
        dec_packet(InternalPacketId::QuestRoomMsg, enc_packet(PacketModel::QuestRoomMsg(x))) == Ok::<
            (PacketModel, int),
            Error,
        >((PacketModel::QuestRoomMsg(x), enc_packet(PacketModel::QuestRoomMsg(x)).len() as int)),
{
    reveal(dec_packet);
    reveal(enc_packet);
    reveal(valid_packet);
    <QuestRoomMsg as NetworkAdapter>::lemma_dec_enc(x, Seq::empty());
    crate::adapters::lemma_concat_empty(<QuestRoomMsg as NetworkAdapter>::enc_model(x));
}

proof fn lemma_dec_enc_pong(x: Pong)
    requires
        valid_packet(PacketModel::Pong(x)),
    ensures
        dec_packet(InternalPacketId::Pong, enc_packet(PacketModel::Pong(x))) == Ok::<
            (PacketModel, int),
            Error,
        >((PacketModel::Pong(x), enc_packet(PacketModel::Pong(x)).len() as int)),
{
    reveal(dec_packet);
    reveal(enc_packet);
    reveal(valid_packet);
    <Pong as NetworkAdapter>::lemma_dec_enc(x, Seq::empty());
    crate::adapters::lemma_concat_empty(<Pong as NetworkAdapter>::enc_model(x));
}

proof fn lemma_dec_enc_request_trade(x: RequestTradeModel)
    requires
        valid_packet(PacketModel::RequestTrade(x)),
    ensures
        dec_packet(InternalPacketId::RequestTrade, enc_packet(PacketModel::RequestTrade(x))) == Ok::<
            (PacketModel, int),
            Error,
        >((PacketModel::RequestTrade(x), enc_packet(PacketModel::RequestTrade(x)).len() as int)),
{
    reveal(dec_packet);
    reveal(enc_packet);
    reveal(valid_packet);
    <RequestTrade as NetworkAdapter>::lemma_dec_enc(x, Seq::empty());
    crate::adapters::lemma_concat_empty(<RequestTrade as NetworkAdapter>::enc_model(x));
}

proof fn lemma_dec_enc_reset_daily_quests(x: ResetDailyQuests)
    requires
        valid_packet(PacketModel::ResetDailyQuests(x)),
    ensures
        dec_packet(InternalPacketId::ResetDailyQuests, enc_packet(PacketModel::ResetDailyQuests(x))) == Ok::<
            (PacketModel, int),
            Error,
        >((PacketModel::ResetDailyQuests(x), enc_packet(PacketModel::ResetDailyQuests(x)).len() as int)),
{
    reveal(dec_packet);
    reveal(enc_packet);
    reveal(valid_packet);
    <ResetDailyQuests as NetworkAdapter>::lemma_dec_enc(x, Seq::empty());
    crate::adapters::lemma_concat_empty(<ResetDailyQuests as NetworkAdapter>::enc_model(x));
}

proof fn lemma_dec_enc_reskin(x: Reskin)
    requires
        valid_packet(PacketModel::Reskin(x)),
    ensures
        dec_packet(InternalPacketId::Reskin, enc_packet(PacketModel::Reskin(x))) == Ok::<
            (PacketModel, int),
            Error,
        >((PacketModel::Reskin(x), enc_packet(PacketModel::Reskin(x)).len() as int)),
{
    reveal(dec_packet);
    reveal(enc_packet);
    reveal(valid_packet);
    <Reskin as NetworkAdapter>::lemma_dec_enc(x, Seq::empty());
    crate::adapters::lemma_concat_empty(<Reskin as NetworkAdapter>::enc_model(x));
}

proof fn lemma_dec_enc_set_condition(x: SetCondition)
    requires
        valid_packet(PacketModel::SetCondition(x)),
    ensures
        dec_packet(InternalPacketId::SetCondition, enc_packet(PacketModel::SetCondition(x))) == Ok::<
            (PacketModel, int),
            Error,
        >((PacketModel::SetCondition(x), enc_packet(PacketModel::SetCondition(x)).len() as int)),
{
    reveal(dec_packet);
    reveal(enc_packet);
    reveal(valid_packet);
    <SetCondition as NetworkAdapter>::lemma_dec_enc(x, Seq::empty());
    crate::adapters::lemma_concat_empty(<SetCondition as NetworkAdapter>::enc_model(x));
}

proof fn lemma_dec_enc_shoot_ack(x: ShootAck)
    requires
        valid_packet(PacketModel::ShootAck(x)),
    ensures
        dec_packet(InternalPacketId::ShootAck, enc_packet(PacketModel::ShootAck(x))) == Ok::<
            (PacketModel, int),
            Error,
        >((PacketModel::ShootAck(x), enc_packet(PacketModel::ShootAck(x)).len() as int)),
{
    reveal(dec_packet);
    reveal(enc_packet);
    reveal(valid_packet);
    <ShootAck as NetworkAdapter>::lemma_dec_enc(x, Seq::empty());
    crate::adapters::lemma_concat_empty(<ShootAck as NetworkAdapter>::enc_model(x));
}

proof fn lemma_dec_enc_square_hit(x: SquareHit)
    requires
        valid_packet(PacketModel::SquareHit(x)),
    ensures
        dec_packet(InternalPacketId::SquareHit, enc_packet(PacketModel::SquareHit(x))) == Ok::<
            (PacketModel, int),
            Error,
        >((PacketModel::SquareHit(x), enc_packet(PacketModel::SquareHit(x)).len() as int)),
{
    reveal(dec_packet);
    reveal(enc_packet);
    reveal(valid_packet);
    <SquareHit as NetworkAdapter>::lemma_dec_enc(x, Seq::empty());
    crate::adapters::lemma_concat_empty(<SquareHit as NetworkAdapter>::enc_model(x));
}

proof fn lemma_dec_enc_teleport(x: Teleport)
    requires
        valid_packet(PacketModel::Teleport(x)),
    ensures
        dec_packet(InternalPacketId::Teleport, enc_packet(PacketModel::Teleport(x))) == Ok::<
            (PacketModel, int),
            Error,
        >((PacketModel::Teleport(x), enc_packet(PacketModel::Teleport(x)).len() as int)),
{
    reveal(dec_packet);
    reveal(enc_packet);
    reveal(valid_packet);
    <Teleport as NetworkAdapter>::lemma_dec_enc(x, Seq::empty());
    crate::adapters::lemma_concat_empty(<Teleport as NetworkAdapter>::enc_model(x));
}

proof fn lemma_dec_enc_update_ack(x: UpdateAck)
    requires
        valid_packet(PacketModel::UpdateAck(x)),
    ensures
        dec_packet(InternalPacketId::UpdateAck, enc_packet(PacketModel::UpdateAck(x))) == Ok::<
            (PacketModel, int),
            Error,
        >((PacketModel::UpdateAck(x), enc_packet(PacketModel::UpdateAck(x)).len() as int)),
{
    reveal(dec_packet);
    reveal(enc_packet);
    reveal(valid_packet);
    <UpdateAck as NetworkAdapter>::lemma_dec_enc(x, Seq::empty());
    crate::adapters::lemma_concat_empty(<UpdateAck as NetworkAdapter>::enc_model(x));
}

proof fn lemma_dec_enc_use_item(x: UseItem)
    requires
        valid_packet(PacketModel::UseItem(x)),
    ensures
        dec_packet(InternalPacketId::UseItem, enc_packet(PacketModel::UseItem(x))) == Ok::<
            (PacketModel, int),
            Error,
        >((PacketModel::UseItem(x), enc_packet(PacketModel::UseItem(x)).len() as int)),
{
    reveal(dec_packet);
    reveal(enc_packet);
    reveal(valid_packet);
    <UseItem as NetworkAdapter>::lemma_dec_enc(x, Seq::empty());
    crate::adapters::lemma_concat_empty(<UseItem as NetworkAdapter>::enc_model(x));
}

proof fn lemma_dec_enc_use_portal(x: UsePortal)
    requires
        valid_packet(PacketModel::UsePortal(x)),
    ensures
        dec_packet(InternalPacketId::UsePortal, enc_packet(PacketModel::UsePortal(x))) == Ok::<
            (PacketModel, int),
            Error,
        >((PacketModel::UsePortal(x), enc_packet(PacketModel::UsePortal(x)).len() as int)),
{
    reveal(dec_packet);
    reveal(enc_packet);
    reveal(valid_packet);
    <UsePortal as NetworkAdapter>::lemma_dec_enc(x, Seq::empty());
    crate::adapters::lemma_concat_empty(<UsePortal as NetworkAdapter>::enc_model(x));
}

proof fn lemma_dec_enc_quest_fetch_ask(x: QuestFetchAsk)
    requires
        valid_packet(PacketModel::QuestFetchAsk(x)),
    ensures
        dec_packet(InternalPacketId::QuestFetchAsk, enc_packet(PacketModel::QuestFetchAsk(x))) == Ok::<
            (PacketModel, int),
            Error,
        >((PacketModel::QuestFetchAsk(x), enc_packet(PacketModel::QuestFetchAsk(x)).len() as int)),
{
    reveal(dec_packet);
    reveal(enc_packet);
    reveal(valid_packet);
    <QuestFetchAsk as NetworkAdapter>::lemma_dec_enc(x, Seq::empty());
    crate::adapters::lemma_concat_empty(<QuestFetchAsk as NetworkAdapter>::enc_model(x));
}

proof fn lemma_dec_enc_accept_arena_death(x: AcceptArenaDeath)
    requires
        valid_packet(PacketModel::AcceptArenaDeath(x)),
    ensures
        dec_packet(InternalPacketId::AcceptArenaDeath, enc_packet(PacketModel::AcceptArenaDeath(x))) == Ok::<
            (PacketModel, int),
            Error,
        >((PacketModel::AcceptArenaDeath(x), enc_packet(PacketModel::AcceptArenaDeath(x)).len() as int)),
{
    reveal(dec_packet);
    reveal(enc_packet);
    reveal(valid_packet);
    <AcceptArenaDeath as NetworkAdapter>::lemma_dec_enc(x, Seq::empty());
    crate::adapters::lemma_concat_empty(<AcceptArenaDeath as NetworkAdapter>::enc_model(x));
}

proof fn lemma_dec_enc_account_list(x: AccountListModel)
    requires
        valid_packet(PacketModel::AccountList(x)),
    ensures
        dec_packet(InternalPacketId::AccountList, enc_packet(PacketModel::AccountList(x))) == Ok::<
            (PacketModel, int),
            Error,
        >((PacketModel::AccountList(x), enc_packet(PacketModel::AccountList(x)).len() as int)),
{
    reveal(dec_packet);
    reveal(enc_packet);
    reveal(valid_packet);
    <AccountList as NetworkAdapter>::lemma_dec_enc(x, Seq::empty());
    crate::adapters::lemma_concat_empty(<AccountList as NetworkAdapter>::enc_model(x));
}

proof fn lemma_dec_enc_active_pet_update(x: ActivePetUpdate)
    requires
        valid_packet(PacketModel::ActivePetUpdate(x)),
    ensures
        dec_packet(InternalPacketId::ActivePetUpdate, enc_packet(PacketModel::ActivePetUpdate(x))) == Ok::<
            (PacketModel, int),
            Error,
        >((PacketModel::ActivePetUpdate(x), enc_packet(PacketModel::ActivePetUpdate(x)).len() as int)),
{
    reveal(dec_packet);
    reveal(enc_packet);
    reveal(valid_packet);
    <ActivePetUpdate as NetworkAdapter>::lemma_dec_enc(x, Seq::empty());
    crate::adapters::lemma_concat_empty(<ActivePetUpdate as NetworkAdapter>::enc_model(x));
}

proof fn lemma_dec_enc_ally_shoot(x: AllyShoot)
    requires
        valid_packet(PacketModel::AllyShoot(x)),
    ensures
        dec_packet(InternalPacketId::AllyShoot, enc_packet(PacketModel::AllyShoot(x))) == Ok::<
            (PacketModel, int),
            Error,
        >((PacketModel::AllyShoot(x), enc_packet(PacketModel::AllyShoot(x)).len() as int)),
{
    reveal(dec_packet);
    reveal(enc_packet);
    reveal(valid_packet);
    <AllyShoot as NetworkAdapter>::lemma_dec_enc(x, Seq::empty());
    crate::adapters::lemma_concat_empty(<AllyShoot as NetworkAdapter>::enc_model(x));
}

proof fn lemma_dec_enc_aoe(x: Aoe)
    requires
        valid_packet(PacketModel::Aoe(x)),
    ensures
        dec_packet(InternalPacketId::Aoe, enc_packet(PacketModel::Aoe(x))) == Ok::<
            (PacketModel, int),
            Error,
        >((PacketModel::Aoe(x), enc_packet(PacketModel::Aoe(x)).len() as int)),
{
    reveal(dec_packet);
    reveal(enc_packet);
    reveal(valid_packet);
    <Aoe as NetworkAdapter>::lemma_dec_enc(x, Seq::empty());
    crate::adapters::lemma_concat_empty(<Aoe as NetworkAdapter>::enc_model(x));
}

proof fn lemma_dec_enc_arena_death(x: ArenaDeath)
    requires
        valid_packet(PacketModel::ArenaDeath(x)),
    ensures
        dec_packet(InternalPacketId::ArenaDeath, enc_packet(PacketModel::ArenaDeath(x))) == Ok::<
            (PacketModel, int),
            Error,
        >((PacketModel::ArenaDeath(x), enc_packet(PacketModel::ArenaDeath(x)).len() as int)),
{
    reveal(dec_packet);
    reveal(enc_packet);
    reveal(valid_packet);
    <ArenaDeath as NetworkAdapter>::lemma_dec_enc(x, Seq::empty());
    crate::adapters::lemma_concat_empty(<ArenaDeath as NetworkAdapter>::enc_model(x));
}

proof fn lemma_dec_enc_buy_result(x: BuyResultModel)
    requires
        valid_packet(PacketModel::BuyResult(x)),
    ensures
        dec_packet(InternalPacketId::BuyResult, enc_packet(PacketModel::BuyResult(x))) == Ok::<
            (PacketModel, int),
            Error,
        >((PacketModel::BuyResult(x), enc_packet(PacketModel::BuyResult(x)).len() as int)),
{
    reveal(dec_packet);
    reveal(enc_packet);
    reveal(valid_packet);
    <BuyResult as NetworkAdapter>::lemma_dec_enc(x, Seq::empty());
    crate::adapters::lemma_concat_empty(<BuyResult as NetworkAdapter>::enc_model(x));
}

proof fn lemma_dec_enc_client_stat(x: ClientStatModel)
    requires
        valid_packet(PacketModel::ClientStat(x)),
    ensures
        dec_packet(InternalPacketId::ClientStat, enc_packet(PacketModel::ClientStat(x))) == Ok::<
            (PacketModel, int),
            Error,
        >((PacketModel::ClientStat(x), enc_packet(PacketModel::ClientStat(x)).len() as int)),
{
    reveal(dec_packet);
    reveal(enc_packet);
    reveal(valid_packet);
    <ClientStat as NetworkAdapter>::lemma_dec_enc(x, Seq::empty());
    crate::adapters::lemma_concat_empty(<ClientStat as NetworkAdapter>::enc_model(x));
}

proof fn lemma_dec_enc_create_success(x: CreateSuccess)
    requires
        valid_packet(PacketModel::CreateSuccess(x)),
    ensures
        dec_packet(InternalPacketId::CreateSuccess, enc_packet(PacketModel::CreateSuccess(x))) == Ok::<
            (PacketModel, int),
            Error,
        >((PacketModel::CreateSuccess(x), enc_packet(PacketModel::CreateSuccess(x)).len() as int)),
{
    reveal(dec_packet);
    reveal(enc_packet);
    reveal(valid_packet);
    <CreateSuccess as NetworkAdapter>::lemma_dec_enc(x, Seq::empty());
    crate::adapters::lemma_concat_empty(<CreateSuccess as NetworkAdapter>::enc_model(x));
}

proof fn lemma_dec_enc_damage(x: DamageModel)
    requires
        valid_packet(PacketModel::Damage(x)),
    ensures
        dec_packet(InternalPacketId::Damage, enc_packet(PacketModel::Damage(x))) == Ok::<
            (PacketModel, int),
            Error,
        >((PacketModel::Damage(x), enc_packet(PacketModel::Damage(x)).len() as int)),
{
    reveal(dec_packet);
    reveal(enc_packet);
    reveal(valid_packet);
    <Damage as NetworkAdapter>::lemma_dec_enc(x, Seq::empty());
    crate::adapters::lemma_concat_empty(<Damage as NetworkAdapter>::enc_model(x));
}

proof fn lemma_dec_enc_death(x: DeathModel)
    requires
        valid_packet(PacketModel::Death(x)),
    ensures
        dec_packet(InternalPacketId::Death, enc_packet(PacketModel::Death(x))) == Ok::<
            (PacketModel, int),
            Error,
        >((PacketModel::Death(x), enc_packet(PacketModel::Death(x)).len() as int)),
{
    reveal(dec_packet);
    reveal(enc_packet);
    reveal(valid_packet);
    <Death as NetworkAdapter>::lemma_dec_enc(x, Seq::empty());
    crate::adapters::lemma_concat_empty(<Death as NetworkAdapter>::enc_model(x));
}

proof fn lemma_dec_enc_delete_pet(x: DeletePet)
    requires
        valid_packet(PacketModel::DeletePet(x)),
    ensures
        dec_packet(InternalPacketId::DeletePet, enc_packet(PacketModel::DeletePet(x))) == Ok::<
            (PacketModel, int),
            Error,
        >((PacketModel::DeletePet(x), enc_packet(PacketModel::DeletePet(x)).len() as int)),
{
    reveal(dec_packet);
    reveal(enc_packet);
    reveal(valid_packet);
    <DeletePet as NetworkAdapter>::lemma_dec_enc(x, Seq::empty());
    crate::adapters::lemma_concat_empty(<DeletePet as NetworkAdapter>::enc_model(x));
}

proof fn lemma_dec_enc_enemy_shoot(x: EnemyShoot)
    requires
        valid_packet(PacketModel::EnemyShoot(x)),
    ensures
        dec_packet(InternalPacketId::EnemyShoot, enc_packet(PacketModel::EnemyShoot(x))) == Ok::<
            (PacketModel, int),
            Error,
        >((PacketModel::EnemyShoot(x), enc_packet(PacketModel::EnemyShoot(x)).len() as int)),
{
    reveal(dec_packet);
    reveal(enc_packet);
    reveal(valid_packet);
    self::manual_adapters::lemma_enemy_shoot_dec_enc(x);
    crate::adapters::lemma_concat_empty(enemy_shoot_enc(x));
}

proof fn lemma_dec_enc_evolve_pet(x: EvolvePet)
    requires
        valid_packet(PacketModel::EvolvePet(x)),
    ensures
        dec_packet(InternalPacketId::EvolvePet, enc_packet(PacketModel::EvolvePet(x))) == Ok::<
            (PacketModel, int),
            Error,
        >((PacketModel::EvolvePet(x), enc_packet(PacketModel::EvolvePet(x)).len() as int)),
{
    reveal(dec_packet);
    reveal(enc_packet);
    reveal(valid_packet);
    <EvolvePet as NetworkAdapter>::lemma_dec_enc(x, Seq::empty());
    crate::adapters::lemma_concat_empty(<EvolvePet as NetworkAdapter>::enc_model(x));
}

proof fn lemma_dec_enc_failure(x: FailureModel)
    requires
        valid_packet(PacketModel::Failure(x)),
    ensures
        dec_packet(InternalPacketId::Failure, enc_packet(PacketModel::Failure(x))) == Ok::<
            (PacketModel, int),
            Error,
        >((PacketModel::Failure(x), enc_packet(PacketModel::Failure(x)).len() as int)),
{
    reveal(dec_packet);
    reveal(enc_packet);
    reveal(valid_packet);
    <Failure as NetworkAdapter>::lemma_dec_enc(x, Seq::empty());
    crate::adapters::lemma_concat_empty(<Failure as NetworkAdapter>::enc_model(x));
}

proof fn lemma_dec_enc_file(x: FileModel)
    requires
        valid_packet(PacketModel::File(x)),
    ensures
        dec_packet(InternalPacketId::File, enc_packet(PacketModel::File(x))) == Ok::<
            (PacketModel, int),
            Error,
        >((PacketModel::File(x), enc_packet(PacketModel::File(x)).len() as int)),
{
    reveal(dec_packet);
    reveal(enc_packet);
    reveal(valid_packet);
    <File as NetworkAdapter>::lemma_dec_enc(x, Seq::empty());
    crate::adapters::lemma_concat_empty(<File as NetworkAdapter>::enc_model(x));
}

proof fn lemma_dec_enc_global_notification(x: GlobalNotificationModel)
    requires
        valid_packet(PacketModel::GlobalNotification(x)),
    ensures
        dec_packet(InternalPacketId::GlobalNotification, enc_packet(PacketModel::GlobalNotification(x))) == Ok::<
            (PacketModel, int),
            Error,
        >((PacketModel::GlobalNotification(x), enc_packet(PacketModel::GlobalNotification(x)).len() as int)),
{
    reveal(dec_packet);
    reveal(enc_packet);
    reveal(valid_packet);
    <GlobalNotification as NetworkAdapter>::lemma_dec_enc(x, Seq::empty());
    crate::adapters::lemma_concat_empty(<GlobalNotification as NetworkAdapter>::enc_model(x));
}

proof fn lemma_dec_enc_goto(x: Goto)
    requires
        valid_packet(PacketModel::Goto(x)),
    ensures
        dec_packet(InternalPacketId::Goto, enc_packet(PacketModel::Goto(x))) == Ok::<
            (PacketModel, int),
            Error,
        >((PacketModel::Goto(x), enc_packet(PacketModel::Goto(x)).len() as int)),
{
    reveal(dec_packet);
    reveal(enc_packet);
    reveal(valid_packet);
    <Goto as NetworkAdapter>::lemma_dec_enc(x, Seq::empty());
    crate::adapters::lemma_concat_empty(<Goto as NetworkAdapter>::enc_model(x));
}

proof fn lemma_dec_enc_guild_result(x: GuildResultModel)
    requires
        valid_packet(PacketModel::GuildResult(x)),
    ensures
        dec_packet(InternalPacketId::GuildResult, enc_packet(PacketModel::GuildResult(x))) == Ok::<
            (PacketModel, int),
            Error,
        >((PacketModel::GuildResult(x), enc_packet(PacketModel::GuildResult(x)).len() as int)),
{
    reveal(dec_packet);
    reveal(enc_packet);
    reveal(valid_packet);
    <GuildResult as NetworkAdapter>::lemma_dec_enc(x, Seq::empty());
    crate::adapters::lemma_concat_empty(<GuildResult as NetworkAdapter>::enc_model(x));
}

proof fn lemma_dec_enc_hatch_pet(x: HatchPetModel)
    requires
        valid_packet(PacketModel::HatchPet(x)),
    ensures
        dec_packet(InternalPacketId::HatchPet, enc_packet(PacketModel::HatchPet(x))) == Ok::<
            (PacketModel, int),
            Error,
        >((PacketModel::HatchPet(x), enc_packet(PacketModel::HatchPet(x)).len() as int)),
{
    reveal(dec_packet);
    reveal(enc_packet);
    reveal(valid_packet);
    <HatchPet as NetworkAdapter>::lemma_dec_enc(x, Seq::empty());
    crate::adapters::lemma_concat_empty(<HatchPet as NetworkAdapter>::enc_model(x));
}

proof fn lemma_dec_enc_inv_result(x: InvResult)
    requires
        valid_packet(PacketModel::InvResult(x)),
    ensures
        dec_packet(InternalPacketId::InvResult, enc_packet(PacketModel::InvResult(x))) == Ok::<
            (PacketModel, int),
            Error,
        >((PacketModel::InvResult(x), enc_packet(PacketModel::InvResult(x)).len() as int)),
{
    reveal(dec_packet);
    reveal(enc_packet);
    reveal(valid_packet);
    <InvResult as NetworkAdapter>::lemma_dec_enc(x, Seq::empty());
    crate::adapters::lemma_concat_empty(<InvResult as NetworkAdapter>::enc_model(x));
}

proof fn lemma_dec_enc_invited_to_guild(x: InvitedToGuildModel)
    requires
        valid_packet(PacketModel::InvitedToGuild(x)),
    ensures
        dec_packet(InternalPacketId::InvitedToGuild, enc_packet(PacketModel::InvitedToGuild(x))) == Ok::<
            (PacketModel, int),
            Error,
        >((PacketModel::InvitedToGuild(x), enc_packet(PacketModel::InvitedToGuild(x)).len() as int)),
{
    reveal(dec_packet);
    reveal(enc_packet);
    reveal(valid_packet);
    <InvitedToGuild as NetworkAdapter>::lemma_dec_enc(x, Seq::empty());
    crate::adapters::lemma_concat_empty(<InvitedToGuild as NetworkAdapter>::enc_model(x));
}

proof fn lemma_dec_enc_imminent_arena_wave(x: ImminentArenaWave)
    requires
        valid_packet(PacketModel::ImminentArenaWave(x)),
    ensures
        dec_packet(InternalPacketId::ImminentArenaWave, enc_packet(PacketModel::ImminentArenaWave(x))) == Ok::<
            (PacketModel, int),
            Error,
        >((PacketModel::ImminentArenaWave(x), enc_packet(PacketModel::ImminentArenaWave(x)).len() as int)),
{
    reveal(dec_packet);
    reveal(enc_packet);
    reveal(valid_packet);
    <ImminentArenaWave as NetworkAdapter>::lemma_dec_enc(x, Seq::empty());
    crate::adapters::lemma_concat_empty(<ImminentArenaWave as NetworkAdapter>::enc_model(x));
}

proof fn lemma_dec_enc_key_info_response(x: KeyInfoResponseModel)
    requires
        valid_packet(PacketModel::KeyInfoResponse(x)),
    ensures
        dec_packet(InternalPacketId::KeyInfoResponse, enc_packet(PacketModel::KeyInfoResponse(x))) == Ok::<
            (PacketModel, int),
            Error,
        >((PacketModel::KeyInfoResponse(x), enc_packet(PacketModel::KeyInfoResponse(x)).len() as int)),
{
    reveal(dec_packet);
    reveal(enc_packet);
    reveal(valid_packet);
    <KeyInfoResponse as NetworkAdapter>::lemma_dec_enc(x, Seq::empty());
    crate::adapters::lemma_concat_empty(<KeyInfoResponse as NetworkAdapter>::enc_model(x));
}

proof fn lemma_dec_enc_login_reward_msg(x: LoginRewardMsg)
    requires
        valid_packet(PacketModel::LoginRewardMsg(x)),
    ensures
        dec_packet(InternalPacketId::LoginRewardMsg, enc_packet(PacketModel::LoginRewardMsg(x))) == Ok::<
            (PacketModel, int),
            Error,
        >((PacketModel::LoginRewardMsg(x), enc_packet(PacketModel::LoginRewardMsg(x)).len() as int)),
{
    reveal(dec_packet);
    reveal(enc_packet);
    reveal(valid_packet);
    <LoginRewardMsg as NetworkAdapter>::lemma_dec_enc(x, Seq::empty());
    crate::adapters::lemma_concat_empty(<LoginRewardMsg as NetworkAdapter>::enc_model(x));
}

proof fn lemma_dec_enc_map_info(x: MapInfoModel)
    requires
        valid_packet(PacketModel::MapInfo(x)),
    ensures
        dec_packet(InternalPacketId::MapInfo, enc_packet(PacketModel::MapInfo(x))) == Ok::<
            (PacketModel, int),
            Error,
        >((PacketModel::MapInfo(x), enc_packet(PacketModel::MapInfo(x)).len() as int)),
{
    reveal(dec_packet);
    reveal(enc_packet);
    reveal(valid_packet);
    <MapInfo as NetworkAdapter>::lemma_dec_enc(x, Seq::empty());
    crate::adapters::lemma_concat_empty(<MapInfo as NetworkAdapter>::enc_model(x));
}

proof fn lemma_dec_enc_name_result(x: NameResultModel)
    requires
        valid_packet(PacketModel::NameResult(x)),
    ensures
        dec_packet(InternalPacketId::NameResult, enc_packet(PacketModel::NameResult(x))) == Ok::<
            (PacketModel, int),
            Error,
        >((PacketModel::NameResult(x), enc_packet(PacketModel::NameResult(x)).len() as int)),
{
    reveal(dec_packet);
    reveal(enc_packet);
    reveal(valid_packet);
    <NameResult as NetworkAdapter>::lemma_dec_enc(x, Seq::empty());
    crate::adapters::lemma_concat_empty(<NameResult as NetworkAdapter>::enc_model(x));
}

proof fn lemma_dec_enc_new_ability(x: NewAbility)
    requires
        valid_packet(PacketModel::NewAbility(x)),
    ensures
        dec_packet(InternalPacketId::NewAbility, enc_packet(PacketModel::NewAbility(x))) == Ok::<
            (PacketModel, int),
            Error,
        >((PacketModel::NewAbility(x), enc_packet(PacketModel::NewAbility(x)).len() as int)),
{
    reveal(dec_packet);
    reveal(enc_packet);
    reveal(valid_packet);
    <NewAbility as NetworkAdapter>::lemma_dec_enc(x, Seq::empty());
    crate::adapters::lemma_concat_empty(<NewAbility as NetworkAdapter>::enc_model(x));
}

proof fn lemma_dec_enc_new_tick(x: NewTickModel)
    requires
        valid_packet(PacketModel::NewTick(x)),
    ensures
        dec_packet(InternalPacketId::NewTick, enc_packet(PacketModel::NewTick(x))) == Ok::<
            (PacketModel, int),
            Error,
        >((PacketModel::NewTick(x), enc_packet(PacketModel::NewTick(x)).len() as int)),
{
    reveal(dec_packet);
    reveal(enc_packet);
    reveal(valid_packet);
    <NewTick as NetworkAdapter>::lemma_dec_enc(x, Seq::empty());
    crate::adapters::lemma_concat_empty(<NewTick as NetworkAdapter>::enc_model(x));
}

proof fn lemma_dec_enc_notification(x: NotificationModel)
    requires
        valid_packet(PacketModel::Notification(x)),
    ensures
        dec_packet(InternalPacketId::Notification, enc_packet(PacketModel::Notification(x))) == Ok::<
            (PacketModel, int),
            Error,
        >((PacketModel::Notification(x), enc_packet(PacketModel::Notification(x)).len() as int)),
{
    reveal(dec_packet);
    reveal(enc_packet);
    reveal(valid_packet);
    <Notification as NetworkAdapter>::lemma_dec_enc(x, Seq::empty());
    crate::adapters::lemma_concat_empty(<Notification as NetworkAdapter>::enc_model(x));
}

proof fn lemma_dec_enc_password_prompt(x: PasswordPrompt)
    requires
        valid_packet(PacketModel::PasswordPrompt(x)),
    ensures
        dec_packet(InternalPacketId::PasswordPrompt, enc_packet(PacketModel::PasswordPrompt(x))) == Ok::<
            (PacketModel, int),
            Error,
        >((PacketModel::PasswordPrompt(x), enc_packet(PacketModel::PasswordPrompt(x)).len() as int)),
{
    reveal(dec_packet);
    reveal(enc_packet);
    reveal(valid_packet);
    <PasswordPrompt as NetworkAdapter>::lemma_dec_enc(x, Seq::empty());
    crate::adapters::lemma_concat_empty(<PasswordPrompt as NetworkAdapter>::enc_model(x));
}

proof fn lemma_dec_enc_pet_yard_update(x: PetYardUpdate)
    requires
        valid_packet(PacketModel::PetYardUpdate(x)),
    ensures
        dec_packet(InternalPacketId::PetYardUpdate, enc_packet(PacketModel::PetYardUpdate(x))) == Ok::<
            (PacketModel, int),
            Error,
        >((PacketModel::PetYardUpdate(x), enc_packet(PacketModel::PetYardUpdate(x)).len() as int)),
{
    reveal(dec_packet);
    reveal(enc_packet);
    reveal(valid_packet);
    <PetYardUpdate as NetworkAdapter>::lemma_dec_enc(x, Seq::empty());
    crate::adapters::lemma_concat_empty(<PetYardUpdate as NetworkAdapter>::enc_model(x));
}

proof fn lemma_dec_enc_pic(x: PicModel)
    requires
        valid_packet(PacketModel::Pic(x)),
    ensures
        dec_packet(InternalPacketId::Pic, enc_packet(PacketModel::Pic(x))) == Ok::<
            (PacketModel, int),
            Error,
        >((PacketModel::Pic(x), enc_packet(PacketModel::Pic(x)).len() as int)),
{
    reveal(dec_packet);
    reveal(enc_packet);
    reveal(valid_packet);
    <Pic as NetworkAdapter>::lemma_dec_enc(x, Seq::empty());
    crate::adapters::lemma_concat_empty(<Pic as NetworkAdapter>::enc_model(x));
}

proof fn lemma_dec_enc_ping(x: Ping)
    requires
        valid_packet(PacketModel::Ping(x)),
    ensures
        dec_packet(InternalPacketId::Ping, enc_packet(PacketModel::Ping(x))) == Ok::<
            (PacketModel, int),
            Error,
        >((PacketModel::Ping(x), enc_packet(PacketModel::Ping(x)).len() as int)),
{
    reveal(dec_packet);
    reveal(enc_packet);
    reveal(valid_packet);
    <Ping as NetworkAdapter>::lemma_dec_enc(x, Seq::empty());
    crate::adapters::lemma_concat_empty(<Ping as NetworkAdapter>::enc_model(x));
}

proof fn lemma_dec_enc_play_sound(x: PlaySound)
    requires
        valid_packet(PacketModel::PlaySound(x)),
    ensures
        dec_packet(InternalPacketId::PlaySound, enc_packet(PacketModel::PlaySound(x))) == Ok::<
            (PacketModel, int),
            Error,
        >((PacketModel::PlaySound(x), enc_packet(PacketModel::PlaySound(x)).len() as int)),
{
    reveal(dec_packet);
    reveal(enc_packet);
    reveal(valid_packet);
    <PlaySound as NetworkAdapter>::lemma_dec_enc(x, Seq::empty());
    crate::adapters::lemma_concat_empty(<PlaySound as NetworkAdapter>::enc_model(x));
}

proof fn lemma_dec_enc_quest_obj_id(x: QuestObjId)
    requires
        valid_packet(PacketModel::QuestObjId(x)),
    ensures
        dec_packet(InternalPacketId::QuestObjId, enc_packet(PacketModel::QuestObjId(x))) == Ok::<
            (PacketModel, int),
            Error,
        >((PacketModel::QuestObjId(x), enc_packet(PacketModel::QuestObjId(x)).len() as int)),
{
    reveal(dec_packet);
    reveal(enc_packet);
    reveal(valid_packet);
    <QuestObjId as NetworkAdapter>::lemma_dec_enc(x, Seq::empty());
    crate::adapters::lemma_concat_empty(<QuestObjId as NetworkAdapter>::enc_model(x));
}

proof fn lemma_dec_enc_quest_fetch_response(x: QuestFetchResponseModel)
    requires
        valid_packet(PacketModel::QuestFetchResponse(x)),
    ensures
        dec_packet(InternalPacketId::QuestFetchResponse, enc_packet(PacketModel::QuestFetchResponse(x))) == Ok::<
            (PacketModel, int),
            Error,
        >((PacketModel::QuestFetchResponse(x), enc_packet(PacketModel::QuestFetchResponse(x)).len() as int)),
{
    reveal(dec_packet);
    reveal(enc_packet);
    reveal(valid_packet);
    <QuestFetchResponse as NetworkAdapter>::lemma_dec_enc(x, Seq::empty());
    crate::adapters::lemma_concat_empty(<QuestFetchResponse as NetworkAdapter>::enc_model(x));
}

proof fn lemma_dec_enc_quest_redeem_response(x: QuestRedeemResponseModel)
    requires
        valid_packet(PacketModel::QuestRedeemResponse(x)),
    ensures
        dec_packet(InternalPacketId::QuestRedeemResponse, enc_packet(PacketModel::QuestRedeemResponse(x))) == Ok::<
            (PacketModel, int),
            Error,
        >((PacketModel::QuestRedeemResponse(x), enc_packet(PacketModel::QuestRedeemResponse(x)).len() as int)),
{
    reveal(dec_packet);
    reveal(enc_packet);
    reveal(valid_packet);
    <QuestRedeemResponse as NetworkAdapter>::lemma_dec_enc(x, Seq::empty());
    crate::adapters::lemma_concat_empty(<QuestRedeemResponse as NetworkAdapter>::enc_model(x));
}

proof fn lemma_dec_enc_realm_hero_left_msg(x: RealmHeroLeftMsg)
    requires
        valid_packet(PacketModel::RealmHeroLeftMsg(x)),
    ensures
        dec_packet(InternalPacketId::RealmHeroLeftMsg, enc_packet(PacketModel::RealmHeroLeftMsg(x))) == Ok::<
            (PacketModel, int),
            Error,
        >((PacketModel::RealmHeroLeftMsg(x), enc_packet(PacketModel::RealmHeroLeftMsg(x)).len() as int)),
{
    reveal(dec_packet);
    reveal(enc_packet);
    reveal(valid_packet);
    <RealmHeroLeftMsg as NetworkAdapter>::lemma_dec_enc(x, Seq::empty());
    crate::adapters::lemma_concat_empty(<RealmHeroLeftMsg as NetworkAdapter>::enc_model(x));
}

proof fn lemma_dec_enc_reconnect(x: ReconnectModel)
    requires
        valid_packet(PacketModel::Reconnect(x)),
    ensures
        dec_packet(InternalPacketId::Reconnect, enc_packet(PacketModel::Reconnect(x))) == Ok::<
            (PacketModel, int),
            Error,
        >((PacketModel::Reconnect(x), enc_packet(PacketModel::Reconnect(x)).len() as int)),
{
    reveal(dec_packet);
    reveal(enc_packet);
    reveal(valid_packet);
    <Reconnect as NetworkAdapter>::lemma_dec_enc(x, Seq::empty());
    crate::adapters::lemma_concat_empty(<Reconnect as NetworkAdapter>::enc_model(x));
}

proof fn lemma_dec_enc_reskin_unlock(x: ReskinUnlock)
    requires
        valid_packet(PacketModel::ReskinUnlock(x)),
    ensures
        dec_packet(InternalPacketId::ReskinUnlock, enc_packet(PacketModel::ReskinUnlock(x))) == Ok::<
            (PacketModel, int),
            Error,
        >((PacketModel::ReskinUnlock(x), enc_packet(PacketModel::ReskinUnlock(x)).len() as int)),
{
    reveal(dec_packet);
    reveal(enc_packet);
    reveal(valid_packet);
    <ReskinUnlock as NetworkAdapter>::lemma_dec_enc(x, Seq::empty());
    crate::adapters::lemma_concat_empty(<ReskinUnlock as NetworkAdapter>::enc_model(x));
}

proof fn lemma_dec_enc_server_player_shoot(x: ServerPlayerShoot)
    requires
        valid_packet(PacketModel::ServerPlayerShoot(x)),
    ensures
        dec_packet(InternalPacketId::ServerPlayerShoot, enc_packet(PacketModel::ServerPlayerShoot(x))) == Ok::<
            (PacketModel, int),
            Error,
        >((PacketModel::ServerPlayerShoot(x), enc_packet(PacketModel::ServerPlayerShoot(x)).len() as int)),
{
    reveal(dec_packet);
    reveal(enc_packet);
    reveal(valid_packet);
    <ServerPlayerShoot as NetworkAdapter>::lemma_dec_enc(x, Seq::empty());
    crate::adapters::lemma_concat_empty(<ServerPlayerShoot as NetworkAdapter>::enc_model(x));
}

proof fn lemma_dec_enc_show_effect(x: ShowEffect)
    requires
        valid_packet(PacketModel::ShowEffect(x)),
    ensures
        dec_packet(InternalPacketId::ShowEffect, enc_packet(PacketModel::ShowEffect(x))) == Ok::<
            (PacketModel, int),
            Error,
        >((PacketModel::ShowEffect(x), enc_packet(PacketModel::ShowEffect(x)).len() as int)),
{
    reveal(dec_packet);
    reveal(enc_packet);
    reveal(valid_packet);
    <ShowEffect as NetworkAdapter>::lemma_dec_enc(x, Seq::empty());
    crate::adapters::lemma_concat_empty(<ShowEffect as NetworkAdapter>::enc_model(x));
}

proof fn lemma_dec_enc_text(x: TextModel)
    requires
        valid_packet(PacketModel::Text(x)),
    ensures
        dec_packet(InternalPacketId::Text, enc_packet(PacketModel::Text(x))) == Ok::<
            (PacketModel, int),
            Error,
        >((PacketModel::Text(x), enc_packet(PacketModel::Text(x)).len() as int)),
{
    reveal(dec_packet);
    reveal(enc_packet);
    reveal(valid_packet);
    <Text as NetworkAdapter>::lemma_dec_enc(x, Seq::empty());
    crate::adapters::lemma_concat_empty(<Text as NetworkAdapter>::enc_model(x));
}

proof fn lemma_dec_enc_trade_accepted(x: TradeAcceptedModel)
    requires
        valid_packet(PacketModel::TradeAccepted(x)),
    ensures
        dec_packet(InternalPacketId::TradeAccepted, enc_packet(PacketModel::TradeAccepted(x))) == Ok::<
            (PacketModel, int),
            Error,
        >((PacketModel::TradeAccepted(x), enc_packet(PacketModel::TradeAccepted(x)).len() as int)),
{
    reveal(dec_packet);
    reveal(enc_packet);
    reveal(valid_packet);
    <TradeAccepted as NetworkAdapter>::lemma_dec_enc(x, Seq::empty());
    crate::adapters::lemma_concat_empty(<TradeAccepted as NetworkAdapter>::enc_model(x));
}

proof fn lemma_dec_enc_trade_changed(x: TradeChangedModel)
    requires
        valid_packet(PacketModel::TradeChanged(x)),
    ensures
        dec_packet(InternalPacketId::TradeChanged, enc_packet(PacketModel::TradeChanged(x))) == Ok::<
            (PacketModel, int),
            Error,
        >((PacketModel::TradeChanged(x), enc_packet(PacketModel::TradeChanged(x)).len() as int)),
{
    reveal(dec_packet);
    reveal(enc_packet);
    reveal(valid_packet);
    <TradeChanged as NetworkAdapter>::lemma_dec_enc(x, Seq::empty());
    crate::adapters::lemma_concat_empty(<TradeChanged as NetworkAdapter>::enc_model(x));
}

proof fn lemma_dec_enc_trade_done(x: TradeDoneModel)
    requires
        valid_packet(PacketModel::TradeDone(x)),
    ensures
        dec_packet(InternalPacketId::TradeDone, enc_packet(PacketModel::TradeDone(x))) == Ok::<
            (PacketModel, int),
            Error,
        >((PacketModel::TradeDone(x), enc_packet(PacketModel::TradeDone(x)).len() as int)),
{
    reveal(dec_packet);
    reveal(enc_packet);
    reveal(valid_packet);
    <TradeDone as NetworkAdapter>::lemma_dec_enc(x, Seq::empty());
    crate::adapters::lemma_concat_empty(<TradeDone as NetworkAdapter>::enc_model(x));
}

proof fn lemma_dec_enc_trade_requested(x: TradeRequestedModel)
    requires
        valid_packet(PacketModel::TradeRequested(x)),
    ensures
        dec_packet(InternalPacketId::TradeRequested, enc_packet(PacketModel::TradeRequested(x))) == Ok::<
            (PacketModel, int),
            Error,
        >((PacketModel::TradeRequested(x), enc_packet(PacketModel::TradeRequested(x)).len() as int)),
{
    reveal(dec_packet);
    reveal(enc_packet);
    reveal(valid_packet);
    <TradeRequested as NetworkAdapter>::lemma_dec_enc(x, Seq::empty());
    crate::adapters::lemma_concat_empty(<TradeRequested as NetworkAdapter>::enc_model(x));
}

proof fn lemma_dec_enc_trade_start(x: TradeStartModel)
    requires
        valid_packet(PacketModel::TradeStart(x)),
    ensures
        dec_packet(InternalPacketId::TradeStart, enc_packet(PacketModel::TradeStart(x))) == Ok::<
            (PacketModel, int),
            Error,
        >((PacketModel::TradeStart(x), enc_packet(PacketModel::TradeStart(x)).len() as int)),
{
    reveal(dec_packet);
    reveal(enc_packet);
    reveal(valid_packet);
    <TradeStart as NetworkAdapter>::lemma_dec_enc(x, Seq::empty());
    crate::adapters::lemma_concat_empty(<TradeStart as NetworkAdapter>::enc_model(x));
}

proof fn lemma_dec_enc_update(x: UpdateModel)
    requires
        valid_packet(PacketModel::Update(x)),
    ensures
        dec_packet(InternalPacketId::Update, enc_packet(PacketModel::Update(x))) == Ok::<
            (PacketModel, int),
            Error,
        >((PacketModel::Update(x), enc_packet(PacketModel::Update(x)).len() as int)),
{
    reveal(dec_packet);
    reveal(enc_packet);
    reveal(valid_packet);
    <Update as NetworkAdapter>::lemma_dec_enc(x, Seq::empty());
    crate::adapters::lemma_concat_empty(<Update as NetworkAdapter>::enc_model(x));
}

proof fn lemma_dec_enc_verify_email(x: VerifyEmail)
    requires
        valid_packet(PacketModel::VerifyEmail(x)),
    ensures
        dec_packet(InternalPacketId::VerifyEmail, enc_packet(PacketModel::VerifyEmail(x))) == Ok::<
            (PacketModel, int),
            Error,
        >((PacketModel::VerifyEmail(x), enc_packet(PacketModel::VerifyEmail(x)).len() as int)),
{
    reveal(dec_packet);
    reveal(enc_packet);
    reveal(valid_packet);
    <VerifyEmail as NetworkAdapter>::lemma_dec_enc(x, Seq::empty());
    crate::adapters::lemma_concat_empty(<VerifyEmail as NetworkAdapter>::enc_model(x));
}

/// Law: decoding the encoded payload of any valid packet model yields the
/// model back, consuming exactly its encoding.
pub proof fn lemma_packet_dec_enc(m: PacketModel)
    requires
        valid_packet(m),
    ensures
        dec_packet(packet_model_id(m), enc_packet(m)) == Ok::<(PacketModel, int), Error>(
            (m, enc_packet(m).len() as int),
        ),
{
    match m {
        PacketModel::AcceptTrade(x) => lemma_dec_enc_accept_trade(x),
        PacketModel::ActivePetUpdateRequest(x) => lemma_dec_enc_active_pet_update_request(x),
        PacketModel::AoeAck(x) => lemma_dec_enc_aoe_ack(x),
        PacketModel::Buy(x) => lemma_dec_enc_buy(x),
        PacketModel::CancelTrade(x) => lemma_dec_enc_cancel_trade(x),
        PacketModel::ChangeGuildRank(x) => lemma_dec_enc_change_guild_rank(x),
        PacketModel::ChangeTrade(x) => lemma_dec_enc_change_trade(x),
        PacketModel::CheckCredits(x) => lemma_dec_enc_check_credits(x),
        PacketModel::ChooseName(x) => lemma_dec_enc_choose_name(x),
        PacketModel::ClaimLoginRewardMsg(x) => lemma_dec_enc_claim_login_reward_msg(x),
        PacketModel::Create(x) => lemma_dec_enc_create(x),
        PacketModel::CreateGuild(x) => lemma_dec_enc_create_guild(x),
        PacketModel::EditAccountList(x) => lemma_dec_enc_edit_account_list(x),
        PacketModel::EnemyHit(x) => lemma_dec_enc_enemy_hit(x),
        PacketModel::EnterArena(x) => lemma_dec_enc_enter_arena(x),
        PacketModel::Escape(x) => lemma_dec_enc_escape(x),
        PacketModel::GotoAck(x) => lemma_dec_enc_goto_ack(x),
        PacketModel::GroundDamage(x) => lemma_dec_enc_ground_damage(x),
        PacketModel::GuildInvite(x) => lemma_dec_enc_guild_invite(x),
        PacketModel::GuildRemove(x) => lemma_dec_enc_guild_remove(x),
        PacketModel::Hello(x) => lemma_dec_enc_hello(x),
        PacketModel::InvDrop(x) => lemma_dec_enc_inv_drop(x),
        PacketModel::InvSwap(x) => lemma_dec_enc_inv_swap(x),
        PacketModel::JoinGuild(x) => lemma_dec_enc_join_guild(x),
        PacketModel::KeyInfoRequest(x) => lemma_dec_enc_key_info_request(x),
        PacketModel::Load(x) => lemma_dec_enc_load(x),
        PacketModel::Move(x) => lemma_dec_enc_move(x),
        PacketModel::OtherHit(x) => lemma_dec_enc_other_hit(x),
        PacketModel::PetChangeFormMsg(x) => lemma_dec_enc_pet_change_form_msg(x),
        PacketModel::PetChangeSkinMsg(x) => lemma_dec_enc_pet_change_skin_msg(x),
        PacketModel::PetUpgradeRequest(x) => lemma_dec_enc_pet_upgrade_request(x),
        PacketModel::PlayerHit(x) => lemma_dec_enc_player_hit(x),
        PacketModel::PlayerShoot(x) => lemma_dec_enc_player_shoot(x),
        PacketModel::PlayerText(x) => lemma_dec_enc_player_text(x),
        PacketModel::QuestRedeem(x) => lemma_dec_enc_quest_redeem(x),
        PacketModel::QuestRoomMsg(x) => lemma_dec_enc_quest_room_msg(x),
        PacketModel::Pong(x) => lemma_dec_enc_pong(x),
        PacketModel::RequestTrade(x) => lemma_dec_enc_request_trade(x),
        PacketModel::ResetDailyQuests(x) => lemma_dec_enc_reset_daily_quests(x),
        PacketModel::Reskin(x) => lemma_dec_enc_reskin(x),
        PacketModel::SetCondition(x) => lemma_dec_enc_set_condition(x),
        PacketModel::ShootAck(x) => lemma_dec_enc_shoot_ack(x),
        PacketModel::SquareHit(x) => lemma_dec_enc_square_hit(x),
        PacketModel::Teleport(x) => lemma_dec_enc_teleport(x),
        PacketModel::UpdateAck(x) => lemma_dec_enc_update_ack(x),
        PacketModel::UseItem(x) => lemma_dec_enc_use_item(x),
        PacketModel::UsePortal(x) => lemma_dec_enc_use_portal(x),
        PacketModel::QuestFetchAsk(x) => lemma_dec_enc_quest_fetch_ask(x),
        PacketModel::AcceptArenaDeath(x) => lemma_dec_enc_accept_arena_death(x),
        PacketModel::AccountList(x) => lemma_dec_enc_account_list(x),
        PacketModel::ActivePetUpdate(x) => lemma_dec_enc_active_pet_update(x),
        PacketModel::AllyShoot(x) => lemma_dec_enc_ally_shoot(x),
        PacketModel::Aoe(x) => lemma_dec_enc_aoe(x),
        PacketModel::ArenaDeath(x) => lemma_dec_enc_arena_death(x),
        PacketModel::BuyResult(x) => lemma_dec_enc_buy_result(x),
        PacketModel::ClientStat(x) => lemma_dec_enc_client_stat(x),
        PacketModel::CreateSuccess(x) => lemma_dec_enc_create_success(x),
        PacketModel::Damage(x) => lemma_dec_enc_damage(x),
        PacketModel::Death(x) => lemma_dec_enc_death(x),
        PacketModel::DeletePet(x) => lemma_dec_enc_delete_pet(x),
        PacketModel::EnemyShoot(x) => lemma_dec_enc_enemy_shoot(x),
        PacketModel::EvolvePet(x) => lemma_dec_enc_evolve_pet(x),
        PacketModel::Failure(x) => lemma_dec_enc_failure(x),
        PacketModel::File(x) => lemma_dec_enc_file(x),
        PacketModel::GlobalNotification(x) => lemma_dec_enc_global_notification(x),
        PacketModel::Goto(x) => lemma_dec_enc_goto(x),
        PacketModel::GuildResult(x) => lemma_dec_enc_guild_result(x),
        PacketModel::HatchPet(x) => lemma_dec_enc_hatch_pet(x),
        PacketModel::InvResult(x) => lemma_dec_enc_inv_result(x),
        PacketModel::InvitedToGuild(x) => lemma_dec_enc_invited_to_guild(x),
        PacketModel::ImminentArenaWave(x) => lemma_dec_enc_imminent_arena_wave(x),
        PacketModel::KeyInfoResponse(x) => lemma_dec_enc_key_info_response(x),
        PacketModel::LoginRewardMsg(x) => lemma_dec_enc_login_reward_msg(x),
        PacketModel::MapInfo(x) => lemma_dec_enc_map_info(x),
        PacketModel::NameResult(x) => lemma_dec_enc_name_result(x),
        PacketModel::NewAbility(x) => lemma_dec_enc_new_ability(x),
        PacketModel::NewTick(x) => lemma_dec_enc_new_tick(x),
        PacketModel::Notification(x) => lemma_dec_enc_notification(x),
        PacketModel::PasswordPrompt(x) => lemma_dec_enc_password_prompt(x),
        PacketModel::PetYardUpdate(x) => lemma_dec_enc_pet_yard_update(x),
        PacketModel::Pic(x) => lemma_dec_enc_pic(x),
        PacketModel::Ping(x) => lemma_dec_enc_ping(x),
        PacketModel::PlaySound(x) => lemma_dec_enc_play_sound(x),
        PacketModel::QuestObjId(x) => lemma_dec_enc_quest_obj_id(x),
        PacketModel::QuestFetchResponse(x) => lemma_dec_enc_quest_fetch_response(x),
        PacketModel::QuestRedeemResponse(x) => lemma_dec_enc_quest_redeem_response(x),
        PacketModel::RealmHeroLeftMsg(x) => lemma_dec_enc_realm_hero_left_msg(x),
        PacketModel::Reconnect(x) => lemma_dec_enc_reconnect(x),
        PacketModel::ReskinUnlock(x) => lemma_dec_enc_reskin_unlock(x),
        PacketModel::ServerPlayerShoot(x) => lemma_dec_enc_server_player_shoot(x),
        PacketModel::ShowEffect(x) => lemma_dec_enc_show_effect(x),
        PacketModel::Text(x) => lemma_dec_enc_text(x),
        PacketModel::TradeAccepted(x) => lemma_dec_enc_trade_accepted(x),
        PacketModel::TradeChanged(x) => lemma_dec_enc_trade_changed(x),
        PacketModel::TradeDone(x) => lemma_dec_enc_trade_done(x),
        PacketModel::TradeRequested(x) => lemma_dec_enc_trade_requested(x),
        PacketModel::TradeStart(x) => lemma_dec_enc_trade_start(x),
        PacketModel::Update(x) => lemma_dec_enc_update(x),
        PacketModel::VerifyEmail(x) => lemma_dec_enc_verify_email(x),
    }
}

} // verus!
