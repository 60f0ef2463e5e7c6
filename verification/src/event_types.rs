//! The FreeSWITCH event types: the protocol enumeration `EventTypes`, the
//! core's numeric event type `switch_event_types_t`, and the mapping between
//! them and their names (`SWITCH_EVENT_...`).
//!
//! Both name tables share one list of names, indexed by the event number.
#![allow(non_camel_case_types)]
use crate::text::{chars_eq_str, str_to_chars};
use vstd::prelude::*;

verus! {

/// The event types of the FreeSWITCH event system, in protocol order.
#[derive(Clone, Copy, Debug, PartialEq, Eq, Structural, Hash)]
pub enum EventTypes {
    SwitchEventCustom,
    SwitchEventClone,
    SwitchEventChannelCreate,
    SwitchEventChannelDestroy,
    SwitchEventChannelState,
    SwitchEventChannelCallstate,
    SwitchEventChannelAnswer,
    SwitchEventChannelHangup,
    SwitchEventChannelHangupComplete,
    SwitchEventChannelExecute,
    SwitchEventChannelExecuteComplete,
    SwitchEventChannelHold,
    SwitchEventChannelUnhold,
    SwitchEventChannelBridge,
    SwitchEventChannelUnbridge,
    SwitchEventChannelProgress,
    SwitchEventChannelProgressMedia,
    SwitchEventChannelOutgoing,
    SwitchEventChannelPark,
    SwitchEventChannelUnpark,
    SwitchEventChannelApplication,
    SwitchEventChannelOriginate,
    SwitchEventChannelUuid,
    SwitchEventApi,
    SwitchEventLog,
    SwitchEventInboundChan,
    SwitchEventOutboundChan,
    SwitchEventStartup,
    SwitchEventShutdown,
    SwitchEventPublish,
    SwitchEventUnpublish,
    SwitchEventTalk,
    SwitchEventNotalk,
    SwitchEventSessionCrash,
    SwitchEventModuleLoad,
    SwitchEventModuleUnload,
    SwitchEventDtmf,
    SwitchEventMessage,
    SwitchEventPresenceIn,
    SwitchEventNotifyIn,
    SwitchEventPresenceOut,
    SwitchEventPresenceProbe,
    SwitchEventMessageWaiting,
    SwitchEventMessageQuery,
    SwitchEventRoster,
    SwitchEventCodec,
    SwitchEventBackgroundJob,
    SwitchEventDetectedSpeech,
    SwitchEventDetectedTone,
    SwitchEventPrivateCommand,
    SwitchEventHeartbeat,
    SwitchEventTrap,
    SwitchEventAddSchedule,
    SwitchEventDelSchedule,
    SwitchEventExeSchedule,
    SwitchEventReSchedule,
    SwitchEventReloadxml,
    SwitchEventNotify,
    SwitchEventPhoneFeature,
    SwitchEventPhoneFeatureSubscribe,
    SwitchEventSendMessage,
    SwitchEventRecvMessage,
    SwitchEventRequestParams,
    SwitchEventChannelData,
    SwitchEventGeneral,
    SwitchEventCommand,
    SwitchEventSessionHeartbeat,
    SwitchEventClientDisconnected,
    SwitchEventServerDisconnected,
    SwitchEventSendInfo,
    SwitchEventRecvInfo,
    SwitchEventRecvRtcpMessage,
    SwitchEventSendRtcpMessage,
    SwitchEventCallSecure,
    SwitchEventNat,
    SwitchEventRecordStart,
    SwitchEventRecordStop,
    SwitchEventPlaybackStart,
    SwitchEventPlaybackStop,
    SwitchEventCallUpdate,
    SwitchEventFailure,
    SwitchEventSocketData,
    SwitchEventMediaBugStart,
    SwitchEventMediaBugStop,
    SwitchEventConferenceDataQuery,
    SwitchEventConferenceData,
    SwitchEventCallSetupReq,
    SwitchEventCallSetupResult,
    SwitchEventCallDetail,
    SwitchEventDeviceState,
    SwitchEventText,
    SwitchEventShutdownRequested,
    SwitchEventAll,
}

/// Number of event types.
pub const EVENT_TYPE_COUNT: u32 = 93;

/// The protocol number of an event type.
pub open spec fn event_type_index(e: EventTypes) -> int {
    match e {
        EventTypes::SwitchEventCustom => 0,
        EventTypes::SwitchEventClone => 1,
        EventTypes::SwitchEventChannelCreate => 2,
        EventTypes::SwitchEventChannelDestroy => 3,
        EventTypes::SwitchEventChannelState => 4,
        EventTypes::SwitchEventChannelCallstate => 5,
        EventTypes::SwitchEventChannelAnswer => 6,
        EventTypes::SwitchEventChannelHangup => 7,
        EventTypes::SwitchEventChannelHangupComplete => 8,
        EventTypes::SwitchEventChannelExecute => 9,
        EventTypes::SwitchEventChannelExecuteComplete => 10,
        EventTypes::SwitchEventChannelHold => 11,
        EventTypes::SwitchEventChannelUnhold => 12,
        EventTypes::SwitchEventChannelBridge => 13,
        EventTypes::SwitchEventChannelUnbridge => 14,
        EventTypes::SwitchEventChannelProgress => 15,
        EventTypes::SwitchEventChannelProgressMedia => 16,
        EventTypes::SwitchEventChannelOutgoing => 17,
        EventTypes::SwitchEventChannelPark => 18,
        EventTypes::SwitchEventChannelUnpark => 19,
        EventTypes::SwitchEventChannelApplication => 20,
        EventTypes::SwitchEventChannelOriginate => 21,
        EventTypes::SwitchEventChannelUuid => 22,
        EventTypes::SwitchEventApi => 23,
        EventTypes::SwitchEventLog => 24,
        EventTypes::SwitchEventInboundChan => 25,
        EventTypes::SwitchEventOutboundChan => 26,
        EventTypes::SwitchEventStartup => 27,
        EventTypes::SwitchEventShutdown => 28,
        EventTypes::SwitchEventPublish => 29,
        EventTypes::SwitchEventUnpublish => 30,
        EventTypes::SwitchEventTalk => 31,
        EventTypes::SwitchEventNotalk => 32,
        EventTypes::SwitchEventSessionCrash => 33,
        EventTypes::SwitchEventModuleLoad => 34,
        EventTypes::SwitchEventModuleUnload => 35,
        EventTypes::SwitchEventDtmf => 36,
        EventTypes::SwitchEventMessage => 37,
        EventTypes::SwitchEventPresenceIn => 38,
        EventTypes::SwitchEventNotifyIn => 39,
        EventTypes::SwitchEventPresenceOut => 40,
        EventTypes::SwitchEventPresenceProbe => 41,
        EventTypes::SwitchEventMessageWaiting => 42,
        EventTypes::SwitchEventMessageQuery => 43,
        EventTypes::SwitchEventRoster => 44,
        EventTypes::SwitchEventCodec => 45,
        EventTypes::SwitchEventBackgroundJob => 46,
        EventTypes::SwitchEventDetectedSpeech => 47,
        EventTypes::SwitchEventDetectedTone => 48,
        EventTypes::SwitchEventPrivateCommand => 49,
        EventTypes::SwitchEventHeartbeat => 50,
        EventTypes::SwitchEventTrap => 51,
        EventTypes::SwitchEventAddSchedule => 52,
        EventTypes::SwitchEventDelSchedule => 53,
        EventTypes::SwitchEventExeSchedule => 54,
        EventTypes::SwitchEventReSchedule => 55,
        EventTypes::SwitchEventReloadxml => 56,
        EventTypes::SwitchEventNotify => 57,
        EventTypes::SwitchEventPhoneFeature => 58,
        EventTypes::SwitchEventPhoneFeatureSubscribe => 59,
        EventTypes::SwitchEventSendMessage => 60,
        EventTypes::SwitchEventRecvMessage => 61,
        EventTypes::SwitchEventRequestParams => 62,
        EventTypes::SwitchEventChannelData => 63,
        EventTypes::SwitchEventGeneral => 64,
        EventTypes::SwitchEventCommand => 65,
        EventTypes::SwitchEventSessionHeartbeat => 66,
        EventTypes::SwitchEventClientDisconnected => 67,
        EventTypes::SwitchEventServerDisconnected => 68,
        EventTypes::SwitchEventSendInfo => 69,
        EventTypes::SwitchEventRecvInfo => 70,
        EventTypes::SwitchEventRecvRtcpMessage => 71,
        EventTypes::SwitchEventSendRtcpMessage => 72,
        EventTypes::SwitchEventCallSecure => 73,
        EventTypes::SwitchEventNat => 74,
        EventTypes::SwitchEventRecordStart => 75,
        EventTypes::SwitchEventRecordStop => 76,
        EventTypes::SwitchEventPlaybackStart => 77,
        EventTypes::SwitchEventPlaybackStop => 78,
        EventTypes::SwitchEventCallUpdate => 79,
        EventTypes::SwitchEventFailure => 80,
        EventTypes::SwitchEventSocketData => 81,
        EventTypes::SwitchEventMediaBugStart => 82,
        EventTypes::SwitchEventMediaBugStop => 83,
        EventTypes::SwitchEventConferenceDataQuery => 84,
        EventTypes::SwitchEventConferenceData => 85,
        EventTypes::SwitchEventCallSetupReq => 86,
        EventTypes::SwitchEventCallSetupResult => 87,
        EventTypes::SwitchEventCallDetail => 88,
        EventTypes::SwitchEventDeviceState => 89,
        EventTypes::SwitchEventText => 90,
        EventTypes::SwitchEventShutdownRequested => 91,
        EventTypes::SwitchEventAll => 92,
    }
}

/// The event type with protocol number `i`, if there is one.
pub open spec fn event_type_at(i: int) -> Option<EventTypes> {
    if i == 0 {
        Some(EventTypes::SwitchEventCustom)
    } else if i == 1 {
        Some(EventTypes::SwitchEventClone)
    } else if i == 2 {
        Some(EventTypes::SwitchEventChannelCreate)
    } else if i == 3 {
        Some(EventTypes::SwitchEventChannelDestroy)
    } else if i == 4 {
        Some(EventTypes::SwitchEventChannelState)
    } else if i == 5 {
        Some(EventTypes::SwitchEventChannelCallstate)
    } else if i == 6 {
        Some(EventTypes::SwitchEventChannelAnswer)
    } else if i == 7 {
        Some(EventTypes::SwitchEventChannelHangup)
    } else if i == 8 {
        Some(EventTypes::SwitchEventChannelHangupComplete)
    } else if i == 9 {
        Some(EventTypes::SwitchEventChannelExecute)
    } else if i == 10 {
        Some(EventTypes::SwitchEventChannelExecuteComplete)
    } else if i == 11 {
        Some(EventTypes::SwitchEventChannelHold)
    } else if i == 12 {
        Some(EventTypes::SwitchEventChannelUnhold)
    } else if i == 13 {
        Some(EventTypes::SwitchEventChannelBridge)
    } else if i == 14 {
        Some(EventTypes::SwitchEventChannelUnbridge)
    } else if i == 15 {
        Some(EventTypes::SwitchEventChannelProgress)
    } else if i == 16 {
        Some(EventTypes::SwitchEventChannelProgressMedia)
    } else if i == 17 {
        Some(EventTypes::SwitchEventChannelOutgoing)
    } else if i == 18 {
        Some(EventTypes::SwitchEventChannelPark)
    } else if i == 19 {
        Some(EventTypes::SwitchEventChannelUnpark)
    } else if i == 20 {
        Some(EventTypes::SwitchEventChannelApplication)
    } else if i == 21 {
        Some(EventTypes::SwitchEventChannelOriginate)
    } else if i == 22 {
        Some(EventTypes::SwitchEventChannelUuid)
    } else if i == 23 {
        Some(EventTypes::SwitchEventApi)
    } else if i == 24 {
        Some(EventTypes::SwitchEventLog)
    } else if i == 25 {
        Some(EventTypes::SwitchEventInboundChan)
    } else if i == 26 {
        Some(EventTypes::SwitchEventOutboundChan)
    } else if i == 27 {
        Some(EventTypes::SwitchEventStartup)
    } else if i == 28 {
        Some(EventTypes::SwitchEventShutdown)
    } else if i == 29 {
        Some(EventTypes::SwitchEventPublish)
    } else if i == 30 {
        Some(EventTypes::SwitchEventUnpublish)
    } else if i == 31 {
        Some(EventTypes::SwitchEventTalk)
    } else if i == 32 {
        Some(EventTypes::SwitchEventNotalk)
    } else if i == 33 {
        Some(EventTypes::SwitchEventSessionCrash)
    } else if i == 34 {
        Some(EventTypes::SwitchEventModuleLoad)
    } else if i == 35 {
        Some(EventTypes::SwitchEventModuleUnload)
    } else if i == 36 {
        Some(EventTypes::SwitchEventDtmf)
    } else if i == 37 {
        Some(EventTypes::SwitchEventMessage)
    } else if i == 38 {
        Some(EventTypes::SwitchEventPresenceIn)
    } else if i == 39 {
        Some(EventTypes::SwitchEventNotifyIn)
    } else if i == 40 {
        Some(EventTypes::SwitchEventPresenceOut)
    } else if i == 41 {
        Some(EventTypes::SwitchEventPresenceProbe)
    } else if i == 42 {
        Some(EventTypes::SwitchEventMessageWaiting)
    } else if i == 43 {
        Some(EventTypes::SwitchEventMessageQuery)
    } else if i == 44 {
        Some(EventTypes::SwitchEventRoster)
    } else if i == 45 {
        Some(EventTypes::SwitchEventCodec)
    } else if i == 46 {
        Some(EventTypes::SwitchEventBackgroundJob)
    } else if i == 47 {
        Some(EventTypes::SwitchEventDetectedSpeech)
    } else if i == 48 {
        Some(EventTypes::SwitchEventDetectedTone)
    } else if i == 49 {
        Some(EventTypes::SwitchEventPrivateCommand)
    } else if i == 50 {
        Some(EventTypes::SwitchEventHeartbeat)
    } else if i == 51 {
        Some(EventTypes::SwitchEventTrap)
    } else if i == 52 {
        Some(EventTypes::SwitchEventAddSchedule)
    } else if i == 53 {
        Some(EventTypes::SwitchEventDelSchedule)
    } else if i == 54 {
        Some(EventTypes::SwitchEventExeSchedule)
    } else if i == 55 {
        Some(EventTypes::SwitchEventReSchedule)
    } else if i == 56 {
        Some(EventTypes::SwitchEventReloadxml)
    } else if i == 57 {
        Some(EventTypes::SwitchEventNotify)
    } else if i == 58 {
        Some(EventTypes::SwitchEventPhoneFeature)
    } else if i == 59 {
        Some(EventTypes::SwitchEventPhoneFeatureSubscribe)
    } else if i == 60 {
        Some(EventTypes::SwitchEventSendMessage)
    } else if i == 61 {
        Some(EventTypes::SwitchEventRecvMessage)
    } else if i == 62 {
        Some(EventTypes::SwitchEventRequestParams)
    } else if i == 63 {
        Some(EventTypes::SwitchEventChannelData)
    } else if i == 64 {
        Some(EventTypes::SwitchEventGeneral)
    } else if i == 65 {
        Some(EventTypes::SwitchEventCommand)
    } else if i == 66 {
        Some(EventTypes::SwitchEventSessionHeartbeat)
    } else if i == 67 {
        Some(EventTypes::SwitchEventClientDisconnected)
    } else if i == 68 {
        Some(EventTypes::SwitchEventServerDisconnected)
    } else if i == 69 {
        Some(EventTypes::SwitchEventSendInfo)
    } else if i == 70 {
        Some(EventTypes::SwitchEventRecvInfo)
    } else if i == 71 {
        Some(EventTypes::SwitchEventRecvRtcpMessage)
    } else if i == 72 {
        Some(EventTypes::SwitchEventSendRtcpMessage)
    } else if i == 73 {
        Some(EventTypes::SwitchEventCallSecure)
    } else if i == 74 {
        Some(EventTypes::SwitchEventNat)
    } else if i == 75 {
        Some(EventTypes::SwitchEventRecordStart)
    } else if i == 76 {
        Some(EventTypes::SwitchEventRecordStop)
    } else if i == 77 {
        Some(EventTypes::SwitchEventPlaybackStart)
    } else if i == 78 {
        Some(EventTypes::SwitchEventPlaybackStop)
    } else if i == 79 {
        Some(EventTypes::SwitchEventCallUpdate)
    } else if i == 80 {
        Some(EventTypes::SwitchEventFailure)
    } else if i == 81 {
        Some(EventTypes::SwitchEventSocketData)
    } else if i == 82 {
        Some(EventTypes::SwitchEventMediaBugStart)
    } else if i == 83 {
        Some(EventTypes::SwitchEventMediaBugStop)
    } else if i == 84 {
        Some(EventTypes::SwitchEventConferenceDataQuery)
    } else if i == 85 {
        Some(EventTypes::SwitchEventConferenceData)
    } else if i == 86 {
        Some(EventTypes::SwitchEventCallSetupReq)
    } else if i == 87 {
        Some(EventTypes::SwitchEventCallSetupResult)
    } else if i == 88 {
        Some(EventTypes::SwitchEventCallDetail)
    } else if i == 89 {
        Some(EventTypes::SwitchEventDeviceState)
    } else if i == 90 {
        Some(EventTypes::SwitchEventText)
    } else if i == 91 {
        Some(EventTypes::SwitchEventShutdownRequested)
    } else if i == 92 {
        Some(EventTypes::SwitchEventAll)
    } else {
        None
    }
}

/// The protocol name of an event type.
pub open spec fn event_type_name(e: EventTypes) -> Seq<char> {
    match e {
        EventTypes::SwitchEventCustom => "SWITCH_EVENT_CUSTOM"@,
        EventTypes::SwitchEventClone => "SWITCH_EVENT_CLONE"@,
        EventTypes::SwitchEventChannelCreate => "SWITCH_EVENT_CHANNEL_CREATE"@,
        EventTypes::SwitchEventChannelDestroy => "SWITCH_EVENT_CHANNEL_DESTROY"@,
        EventTypes::SwitchEventChannelState => "SWITCH_EVENT_CHANNEL_STATE"@,
        EventTypes::SwitchEventChannelCallstate => "SWITCH_EVENT_CHANNEL_CALLSTATE"@,
        EventTypes::SwitchEventChannelAnswer => "SWITCH_EVENT_CHANNEL_ANSWER"@,
        EventTypes::SwitchEventChannelHangup => "SWITCH_EVENT_CHANNEL_HANGUP"@,
        EventTypes::SwitchEventChannelHangupComplete => "SWITCH_EVENT_CHANNEL_HANGUP_COMPLETE"@,
        EventTypes::SwitchEventChannelExecute => "SWITCH_EVENT_CHANNEL_EXECUTE"@,
        EventTypes::SwitchEventChannelExecuteComplete => "SWITCH_EVENT_CHANNEL_EXECUTE_COMPLETE"@,
        EventTypes::SwitchEventChannelHold => "SWITCH_EVENT_CHANNEL_HOLD"@,
        EventTypes::SwitchEventChannelUnhold => "SWITCH_EVENT_CHANNEL_UNHOLD"@,
        EventTypes::SwitchEventChannelBridge => "SWITCH_EVENT_CHANNEL_BRIDGE"@,
        EventTypes::SwitchEventChannelUnbridge => "SWITCH_EVENT_CHANNEL_UNBRIDGE"@,
        EventTypes::SwitchEventChannelProgress => "SWITCH_EVENT_CHANNEL_PROGRESS"@,
        EventTypes::SwitchEventChannelProgressMedia => "SWITCH_EVENT_CHANNEL_PROGRESS_MEDIA"@,
        EventTypes::SwitchEventChannelOutgoing => "SWITCH_EVENT_CHANNEL_OUTGOING"@,
        EventTypes::SwitchEventChannelPark => "SWITCH_EVENT_CHANNEL_PARK"@,
        EventTypes::SwitchEventChannelUnpark => "SWITCH_EVENT_CHANNEL_UNPARK"@,
        EventTypes::SwitchEventChannelApplication => "SWITCH_EVENT_CHANNEL_APPLICATION"@,
        EventTypes::SwitchEventChannelOriginate => "SWITCH_EVENT_CHANNEL_ORIGINATE"@,
        EventTypes::SwitchEventChannelUuid => "SWITCH_EVENT_CHANNEL_UUID"@,
        EventTypes::SwitchEventApi => "SWITCH_EVENT_API"@,
        EventTypes::SwitchEventLog => "SWITCH_EVENT_LOG"@,
        EventTypes::SwitchEventInboundChan => "SWITCH_EVENT_INBOUND_CHAN"@,
        EventTypes::SwitchEventOutboundChan => "SWITCH_EVENT_OUTBOUND_CHAN"@,
        EventTypes::SwitchEventStartup => "SWITCH_EVENT_STARTUP"@,
        EventTypes::SwitchEventShutdown => "SWITCH_EVENT_SHUTDOWN"@,
        EventTypes::SwitchEventPublish => "SWITCH_EVENT_PUBLISH"@,
        EventTypes::SwitchEventUnpublish => "SWITCH_EVENT_UNPUBLISH"@,
        EventTypes::SwitchEventTalk => "SWITCH_EVENT_TALK"@,
        EventTypes::SwitchEventNotalk => "SWITCH_EVENT_NOTALK"@,
        EventTypes::SwitchEventSessionCrash => "SWITCH_EVENT_SESSION_CRASH"@,
        EventTypes::SwitchEventModuleLoad => "SWITCH_EVENT_MODULE_LOAD"@,
        EventTypes::SwitchEventModuleUnload => "SWITCH_EVENT_MODULE_UNLOAD"@,
        EventTypes::SwitchEventDtmf => "SWITCH_EVENT_DTMF"@,
        EventTypes::SwitchEventMessage => "SWITCH_EVENT_MESSAGE"@,
        EventTypes::SwitchEventPresenceIn => "SWITCH_EVENT_PRESENCE_IN"@,
        EventTypes::SwitchEventNotifyIn => "SWITCH_EVENT_NOTIFY_IN"@,
        EventTypes::SwitchEventPresenceOut => "SWITCH_EVENT_PRESENCE_OUT"@,
        EventTypes::SwitchEventPresenceProbe => "SWITCH_EVENT_PRESENCE_PROBE"@,
        EventTypes::SwitchEventMessageWaiting => "SWITCH_EVENT_MESSAGE_WAITING"@,
        EventTypes::SwitchEventMessageQuery => "SWITCH_EVENT_MESSAGE_QUERY"@,
        EventTypes::SwitchEventRoster => "SWITCH_EVENT_ROSTER"@,
        EventTypes::SwitchEventCodec => "SWITCH_EVENT_CODEC"@,
        EventTypes::SwitchEventBackgroundJob => "SWITCH_EVENT_BACKGROUND_JOB"@,
        EventTypes::SwitchEventDetectedSpeech => "SWITCH_EVENT_DETECTED_SPEECH"@,
        EventTypes::SwitchEventDetectedTone => "SWITCH_EVENT_DETECTED_TONE"@,
        EventTypes::SwitchEventPrivateCommand => "SWITCH_EVENT_PRIVATE_COMMAND"@,
        EventTypes::SwitchEventHeartbeat => "SWITCH_EVENT_HEARTBEAT"@,
        EventTypes::SwitchEventTrap => "SWITCH_EVENT_TRAP"@,
        EventTypes::SwitchEventAddSchedule => "SWITCH_EVENT_ADD_SCHEDULE"@,
        EventTypes::SwitchEventDelSchedule => "SWITCH_EVENT_DEL_SCHEDULE"@,
        EventTypes::SwitchEventExeSchedule => "SWITCH_EVENT_EXE_SCHEDULE"@,
        EventTypes::SwitchEventReSchedule => "SWITCH_EVENT_RE_SCHEDULE"@,
        EventTypes::SwitchEventReloadxml => "SWITCH_EVENT_RELOADXML"@,
        EventTypes::SwitchEventNotify => "SWITCH_EVENT_NOTIFY"@,
        EventTypes::SwitchEventPhoneFeature => "SWITCH_EVENT_PHONE_FEATURE"@,
        EventTypes::SwitchEventPhoneFeatureSubscribe => "SWITCH_EVENT_PHONE_FEATURE_SUBSCRIBE"@,
        EventTypes::SwitchEventSendMessage => "SWITCH_EVENT_SEND_MESSAGE"@,
        EventTypes::SwitchEventRecvMessage => "SWITCH_EVENT_RECV_MESSAGE"@,
        EventTypes::SwitchEventRequestParams => "SWITCH_EVENT_REQUEST_PARAMS"@,
        EventTypes::SwitchEventChannelData => "SWITCH_EVENT_CHANNEL_DATA"@,
        EventTypes::SwitchEventGeneral => "SWITCH_EVENT_GENERAL"@,
        EventTypes::SwitchEventCommand => "SWITCH_EVENT_COMMAND"@,
        EventTypes::SwitchEventSessionHeartbeat => "SWITCH_EVENT_SESSION_HEARTBEAT"@,
        EventTypes::SwitchEventClientDisconnected => "SWITCH_EVENT_CLIENT_DISCONNECTED"@,
        EventTypes::SwitchEventServerDisconnected => "SWITCH_EVENT_SERVER_DISCONNECTED"@,
        EventTypes::SwitchEventSendInfo => "SWITCH_EVENT_SEND_INFO"@,
        EventTypes::SwitchEventRecvInfo => "SWITCH_EVENT_RECV_INFO"@,
        EventTypes::SwitchEventRecvRtcpMessage => "SWITCH_EVENT_RECV_RTCP_MESSAGE"@,
        EventTypes::SwitchEventSendRtcpMessage => "SWITCH_EVENT_SEND_RTCP_MESSAGE"@,
        EventTypes::SwitchEventCallSecure => "SWITCH_EVENT_CALL_SECURE"@,
        EventTypes::SwitchEventNat => "SWITCH_EVENT_NAT"@,
        EventTypes::SwitchEventRecordStart => "SWITCH_EVENT_RECORD_START"@,
        EventTypes::SwitchEventRecordStop => "SWITCH_EVENT_RECORD_STOP"@,
        EventTypes::SwitchEventPlaybackStart => "SWITCH_EVENT_PLAYBACK_START"@,
        EventTypes::SwitchEventPlaybackStop => "SWITCH_EVENT_PLAYBACK_STOP"@,
        EventTypes::SwitchEventCallUpdate => "SWITCH_EVENT_CALL_UPDATE"@,
        EventTypes::SwitchEventFailure => "SWITCH_EVENT_FAILURE"@,
        EventTypes::SwitchEventSocketData => "SWITCH_EVENT_SOCKET_DATA"@,
        EventTypes::SwitchEventMediaBugStart => "SWITCH_EVENT_MEDIA_BUG_START"@,
        EventTypes::SwitchEventMediaBugStop => "SWITCH_EVENT_MEDIA_BUG_STOP"@,
        EventTypes::SwitchEventConferenceDataQuery => "SWITCH_EVENT_CONFERENCE_DATA_QUERY"@,
        EventTypes::SwitchEventConferenceData => "SWITCH_EVENT_CONFERENCE_DATA"@,
        EventTypes::SwitchEventCallSetupReq => "SWITCH_EVENT_CALL_SETUP_REQ"@,
        EventTypes::SwitchEventCallSetupResult => "SWITCH_EVENT_CALL_SETUP_RESULT"@,
        EventTypes::SwitchEventCallDetail => "SWITCH_EVENT_CALL_DETAIL"@,
        EventTypes::SwitchEventDeviceState => "SWITCH_EVENT_DEVICE_STATE"@,
        EventTypes::SwitchEventText => "SWITCH_EVENT_TEXT"@,
        EventTypes::SwitchEventShutdownRequested => "SWITCH_EVENT_SHUTDOWN_REQUESTED"@,
        EventTypes::SwitchEventAll => "SWITCH_EVENT_ALL"@,
    }
}

/// The name of the event type numbered `i`, if there is one.
pub open spec fn event_name_at(i: int) -> Option<Seq<char>> {
    match event_type_at(i) {
        Some(e) => Some(event_type_name(e)),
        None => None,
    }
}

/// The event type names of the protocol, in the order of their numbers.
pub open spec fn protocol_event_names() -> Seq<Seq<char>> {
    seq![
        "SWITCH_EVENT_CUSTOM"@,
        "SWITCH_EVENT_CLONE"@,
        "SWITCH_EVENT_CHANNEL_CREATE"@,
        "SWITCH_EVENT_CHANNEL_DESTROY"@,
        "SWITCH_EVENT_CHANNEL_STATE"@,
        "SWITCH_EVENT_CHANNEL_CALLSTATE"@,
        "SWITCH_EVENT_CHANNEL_ANSWER"@,
        "SWITCH_EVENT_CHANNEL_HANGUP"@,
        "SWITCH_EVENT_CHANNEL_HANGUP_COMPLETE"@,
        "SWITCH_EVENT_CHANNEL_EXECUTE"@,
        "SWITCH_EVENT_CHANNEL_EXECUTE_COMPLETE"@,
        "SWITCH_EVENT_CHANNEL_HOLD"@,
        "SWITCH_EVENT_CHANNEL_UNHOLD"@,
        "SWITCH_EVENT_CHANNEL_BRIDGE"@,
        "SWITCH_EVENT_CHANNEL_UNBRIDGE"@,
        "SWITCH_EVENT_CHANNEL_PROGRESS"@,
        "SWITCH_EVENT_CHANNEL_PROGRESS_MEDIA"@,
        "SWITCH_EVENT_CHANNEL_OUTGOING"@,
        "SWITCH_EVENT_CHANNEL_PARK"@,
        "SWITCH_EVENT_CHANNEL_UNPARK"@,
        "SWITCH_EVENT_CHANNEL_APPLICATION"@,
        "SWITCH_EVENT_CHANNEL_ORIGINATE"@,
        "SWITCH_EVENT_CHANNEL_UUID"@,
        "SWITCH_EVENT_API"@,
        "SWITCH_EVENT_LOG"@,
        "SWITCH_EVENT_INBOUND_CHAN"@,
        "SWITCH_EVENT_OUTBOUND_CHAN"@,
        "SWITCH_EVENT_STARTUP"@,
        "SWITCH_EVENT_SHUTDOWN"@,
        "SWITCH_EVENT_PUBLISH"@,
        "SWITCH_EVENT_UNPUBLISH"@,
        "SWITCH_EVENT_TALK"@,
        "SWITCH_EVENT_NOTALK"@,
        "SWITCH_EVENT_SESSION_CRASH"@,
        "SWITCH_EVENT_MODULE_LOAD"@,
        "SWITCH_EVENT_MODULE_UNLOAD"@,
        "SWITCH_EVENT_DTMF"@,
        "SWITCH_EVENT_MESSAGE"@,
        "SWITCH_EVENT_PRESENCE_IN"@,
        "SWITCH_EVENT_NOTIFY_IN"@,
        "SWITCH_EVENT_PRESENCE_OUT"@,
        "SWITCH_EVENT_PRESENCE_PROBE"@,
        "SWITCH_EVENT_MESSAGE_WAITING"@,
        "SWITCH_EVENT_MESSAGE_QUERY"@,
        "SWITCH_EVENT_ROSTER"@,
        "SWITCH_EVENT_CODEC"@,
        "SWITCH_EVENT_BACKGROUND_JOB"@,
        "SWITCH_EVENT_DETECTED_SPEECH"@,
        "SWITCH_EVENT_DETECTED_TONE"@,
        "SWITCH_EVENT_PRIVATE_COMMAND"@,
        "SWITCH_EVENT_HEARTBEAT"@,
        "SWITCH_EVENT_TRAP"@,
        "SWITCH_EVENT_ADD_SCHEDULE"@,
        "SWITCH_EVENT_DEL_SCHEDULE"@,
        "SWITCH_EVENT_EXE_SCHEDULE"@,
        "SWITCH_EVENT_RE_SCHEDULE"@,
        "SWITCH_EVENT_RELOADXML"@,
        "SWITCH_EVENT_NOTIFY"@,
        "SWITCH_EVENT_PHONE_FEATURE"@,
        "SWITCH_EVENT_PHONE_FEATURE_SUBSCRIBE"@,
        "SWITCH_EVENT_SEND_MESSAGE"@,
        "SWITCH_EVENT_RECV_MESSAGE"@,
        "SWITCH_EVENT_REQUEST_PARAMS"@,
        "SWITCH_EVENT_CHANNEL_DATA"@,
        "SWITCH_EVENT_GENERAL"@,
        "SWITCH_EVENT_COMMAND"@,
        "SWITCH_EVENT_SESSION_HEARTBEAT"@,
        "SWITCH_EVENT_CLIENT_DISCONNECTED"@,
        "SWITCH_EVENT_SERVER_DISCONNECTED"@,
        "SWITCH_EVENT_SEND_INFO"@,
        "SWITCH_EVENT_RECV_INFO"@,
        "SWITCH_EVENT_RECV_RTCP_MESSAGE"@,
        "SWITCH_EVENT_SEND_RTCP_MESSAGE"@,
        "SWITCH_EVENT_CALL_SECURE"@,
        "SWITCH_EVENT_NAT"@,
        "SWITCH_EVENT_RECORD_START"@,
        "SWITCH_EVENT_RECORD_STOP"@,
        "SWITCH_EVENT_PLAYBACK_START"@,
        "SWITCH_EVENT_PLAYBACK_STOP"@,
        "SWITCH_EVENT_CALL_UPDATE"@,
        "SWITCH_EVENT_FAILURE"@,
        "SWITCH_EVENT_SOCKET_DATA"@,
        "SWITCH_EVENT_MEDIA_BUG_START"@,
        "SWITCH_EVENT_MEDIA_BUG_STOP"@,
        "SWITCH_EVENT_CONFERENCE_DATA_QUERY"@,
        "SWITCH_EVENT_CONFERENCE_DATA"@,
        "SWITCH_EVENT_CALL_SETUP_REQ"@,
        "SWITCH_EVENT_CALL_SETUP_RESULT"@,
        "SWITCH_EVENT_CALL_DETAIL"@,
        "SWITCH_EVENT_DEVICE_STATE"@,
        "SWITCH_EVENT_TEXT"@,
        "SWITCH_EVENT_SHUTDOWN_REQUESTED"@,
        "SWITCH_EVENT_ALL"@
    ]
}

/// The names and numbers of the event types are those of the protocol: the
/// event type numbered `i` is named by the `i`-th entry of its list, for
/// each of the 93 numbers, and no other number names a type.
pub proof fn lemma_event_names_follow_protocol()
    ensures
        protocol_event_names().len() == 93,
        forall|i: int| 0 <= i < 93 ==> #[trigger] event_name_at(i) == Some(protocol_event_names()[i]),
        forall|i: int| !(0 <= i < 93) ==> #[trigger] event_name_at(i) is None,
{
    assert forall|i: int| 0 <= i < 93 implies #[trigger] event_name_at(i) == Some(protocol_event_names()[i]) by {
        if i == 0 {
            assert(protocol_event_names()[0] == "SWITCH_EVENT_CUSTOM"@);
        } else if i == 1 {
            assert(protocol_event_names()[1] == "SWITCH_EVENT_CLONE"@);
        } else if i == 2 {
            assert(protocol_event_names()[2] == "SWITCH_EVENT_CHANNEL_CREATE"@);
        } else if i == 3 {
            assert(protocol_event_names()[3] == "SWITCH_EVENT_CHANNEL_DESTROY"@);
        } else if i == 4 {
            assert(protocol_event_names()[4] == "SWITCH_EVENT_CHANNEL_STATE"@);
        } else if i == 5 {
            assert(protocol_event_names()[5] == "SWITCH_EVENT_CHANNEL_CALLSTATE"@);
        } else if i == 6 {
            assert(protocol_event_names()[6] == "SWITCH_EVENT_CHANNEL_ANSWER"@);
        } else if i == 7 {
            assert(protocol_event_names()[7] == "SWITCH_EVENT_CHANNEL_HANGUP"@);
        } else if i == 8 {
            assert(protocol_event_names()[8] == "SWITCH_EVENT_CHANNEL_HANGUP_COMPLETE"@);
        } else if i == 9 {
            assert(protocol_event_names()[9] == "SWITCH_EVENT_CHANNEL_EXECUTE"@);
        } else if i == 10 {
            assert(protocol_event_names()[10] == "SWITCH_EVENT_CHANNEL_EXECUTE_COMPLETE"@);
        } else if i == 11 {
            assert(protocol_event_names()[11] == "SWITCH_EVENT_CHANNEL_HOLD"@);
        } else if i == 12 {
            assert(protocol_event_names()[12] == "SWITCH_EVENT_CHANNEL_UNHOLD"@);
        } else if i == 13 {
            assert(protocol_event_names()[13] == "SWITCH_EVENT_CHANNEL_BRIDGE"@);
        } else if i == 14 {
            assert(protocol_event_names()[14] == "SWITCH_EVENT_CHANNEL_UNBRIDGE"@);
        } else if i == 15 {
            assert(protocol_event_names()[15] == "SWITCH_EVENT_CHANNEL_PROGRESS"@);
        } else if i == 16 {
            assert(protocol_event_names()[16] == "SWITCH_EVENT_CHANNEL_PROGRESS_MEDIA"@);
        } else if i == 17 {
            assert(protocol_event_names()[17] == "SWITCH_EVENT_CHANNEL_OUTGOING"@);
        } else if i == 18 {
            assert(protocol_event_names()[18] == "SWITCH_EVENT_CHANNEL_PARK"@);
        } else if i == 19 {
            assert(protocol_event_names()[19] == "SWITCH_EVENT_CHANNEL_UNPARK"@);
        } else if i == 20 {
            assert(protocol_event_names()[20] == "SWITCH_EVENT_CHANNEL_APPLICATION"@);
        } else if i == 21 {
            assert(protocol_event_names()[21] == "SWITCH_EVENT_CHANNEL_ORIGINATE"@);
        } else if i == 22 {
            assert(protocol_event_names()[22] == "SWITCH_EVENT_CHANNEL_UUID"@);
        } else if i == 23 {
            assert(protocol_event_names()[23] == "SWITCH_EVENT_API"@);
        } else if i == 24 {
            assert(protocol_event_names()[24] == "SWITCH_EVENT_LOG"@);
        } else if i == 25 {
            assert(protocol_event_names()[25] == "SWITCH_EVENT_INBOUND_CHAN"@);
        } else if i == 26 {
            assert(protocol_event_names()[26] == "SWITCH_EVENT_OUTBOUND_CHAN"@);
        } else if i == 27 {
            assert(protocol_event_names()[27] == "SWITCH_EVENT_STARTUP"@);
        } else if i == 28 {
            assert(protocol_event_names()[28] == "SWITCH_EVENT_SHUTDOWN"@);
        } else if i == 29 {
            assert(protocol_event_names()[29] == "SWITCH_EVENT_PUBLISH"@);
        } else if i == 30 {
            assert(protocol_event_names()[30] == "SWITCH_EVENT_UNPUBLISH"@);
        } else if i == 31 {
            assert(protocol_event_names()[31] == "SWITCH_EVENT_TALK"@);
        } else if i == 32 {
            assert(protocol_event_names()[32] == "SWITCH_EVENT_NOTALK"@);
        } else if i == 33 {
            assert(protocol_event_names()[33] == "SWITCH_EVENT_SESSION_CRASH"@);
        } else if i == 34 {
            assert(protocol_event_names()[34] == "SWITCH_EVENT_MODULE_LOAD"@);
        } else if i == 35 {
            assert(protocol_event_names()[35] == "SWITCH_EVENT_MODULE_UNLOAD"@);
        } else if i == 36 {
            assert(protocol_event_names()[36] == "SWITCH_EVENT_DTMF"@);
        } else if i == 37 {
            assert(protocol_event_names()[37] == "SWITCH_EVENT_MESSAGE"@);
        } else if i == 38 {
            assert(protocol_event_names()[38] == "SWITCH_EVENT_PRESENCE_IN"@);
        } else if i == 39 {
            assert(protocol_event_names()[39] == "SWITCH_EVENT_NOTIFY_IN"@);
        } else if i == 40 {
            assert(protocol_event_names()[40] == "SWITCH_EVENT_PRESENCE_OUT"@);
        } else if i == 41 {
            assert(protocol_event_names()[41] == "SWITCH_EVENT_PRESENCE_PROBE"@);
        } else if i == 42 {
            assert(protocol_event_names()[42] == "SWITCH_EVENT_MESSAGE_WAITING"@);
        } else if i == 43 {
            assert(protocol_event_names()[43] == "SWITCH_EVENT_MESSAGE_QUERY"@);
        } else if i == 44 {
            assert(protocol_event_names()[44] == "SWITCH_EVENT_ROSTER"@);
        } else if i == 45 {
            assert(protocol_event_names()[45] == "SWITCH_EVENT_CODEC"@);
        } else if i == 46 {
            assert(protocol_event_names()[46] == "SWITCH_EVENT_BACKGROUND_JOB"@);
        } else if i == 47 {
            assert(protocol_event_names()[47] == "SWITCH_EVENT_DETECTED_SPEECH"@);
        } else if i == 48 {
            assert(protocol_event_names()[48] == "SWITCH_EVENT_DETECTED_TONE"@);
        } else if i == 49 {
            assert(protocol_event_names()[49] == "SWITCH_EVENT_PRIVATE_COMMAND"@);
        } else if i == 50 {
            assert(protocol_event_names()[50] == "SWITCH_EVENT_HEARTBEAT"@);
        } else if i == 51 {
            assert(protocol_event_names()[51] == "SWITCH_EVENT_TRAP"@);
        } else if i == 52 {
            assert(protocol_event_names()[52] == "SWITCH_EVENT_ADD_SCHEDULE"@);
        } else if i == 53 {
            assert(protocol_event_names()[53] == "SWITCH_EVENT_DEL_SCHEDULE"@);
        } else if i == 54 {
            assert(protocol_event_names()[54] == "SWITCH_EVENT_EXE_SCHEDULE"@);
        } else if i == 55 {
            assert(protocol_event_names()[55] == "SWITCH_EVENT_RE_SCHEDULE"@);
        } else if i == 56 {
            assert(protocol_event_names()[56] == "SWITCH_EVENT_RELOADXML"@);
        } else if i == 57 {
            assert(protocol_event_names()[57] == "SWITCH_EVENT_NOTIFY"@);
        } else if i == 58 {
            assert(protocol_event_names()[58] == "SWITCH_EVENT_PHONE_FEATURE"@);
        } else if i == 59 {
            assert(protocol_event_names()[59] == "SWITCH_EVENT_PHONE_FEATURE_SUBSCRIBE"@);
        } else if i == 60 {
            assert(protocol_event_names()[60] == "SWITCH_EVENT_SEND_MESSAGE"@);
        } else if i == 61 {
            assert(protocol_event_names()[61] == "SWITCH_EVENT_RECV_MESSAGE"@);
        } else if i == 62 {
            assert(protocol_event_names()[62] == "SWITCH_EVENT_REQUEST_PARAMS"@);
        } else if i == 63 {
            assert(protocol_event_names()[63] == "SWITCH_EVENT_CHANNEL_DATA"@);
        } else if i == 64 {
            assert(protocol_event_names()[64] == "SWITCH_EVENT_GENERAL"@);
        } else if i == 65 {
            assert(protocol_event_names()[65] == "SWITCH_EVENT_COMMAND"@);
        } else if i == 66 {
            assert(protocol_event_names()[66] == "SWITCH_EVENT_SESSION_HEARTBEAT"@);
        } else if i == 67 {
            assert(protocol_event_names()[67] == "SWITCH_EVENT_CLIENT_DISCONNECTED"@);
        } else if i == 68 {
            assert(protocol_event_names()[68] == "SWITCH_EVENT_SERVER_DISCONNECTED"@);
        } else if i == 69 {
            assert(protocol_event_names()[69] == "SWITCH_EVENT_SEND_INFO"@);
        } else if i == 70 {
            assert(protocol_event_names()[70] == "SWITCH_EVENT_RECV_INFO"@);
        } else if i == 71 {
            assert(protocol_event_names()[71] == "SWITCH_EVENT_RECV_RTCP_MESSAGE"@);
        } else if i == 72 {
            assert(protocol_event_names()[72] == "SWITCH_EVENT_SEND_RTCP_MESSAGE"@);
        } else if i == 73 {
            assert(protocol_event_names()[73] == "SWITCH_EVENT_CALL_SECURE"@);
        } else if i == 74 {
            assert(protocol_event_names()[74] == "SWITCH_EVENT_NAT"@);
        } else if i == 75 {
            assert(protocol_event_names()[75] == "SWITCH_EVENT_RECORD_START"@);
        } else if i == 76 {
            assert(protocol_event_names()[76] == "SWITCH_EVENT_RECORD_STOP"@);
        } else if i == 77 {
            assert(protocol_event_names()[77] == "SWITCH_EVENT_PLAYBACK_START"@);
        } else if i == 78 {
            assert(protocol_event_names()[78] == "SWITCH_EVENT_PLAYBACK_STOP"@);
        } else if i == 79 {
            assert(protocol_event_names()[79] == "SWITCH_EVENT_CALL_UPDATE"@);
        } else if i == 80 {
            assert(protocol_event_names()[80] == "SWITCH_EVENT_FAILURE"@);
        } else if i == 81 {
            assert(protocol_event_names()[81] == "SWITCH_EVENT_SOCKET_DATA"@);
        } else if i == 82 {
            assert(protocol_event_names()[82] == "SWITCH_EVENT_MEDIA_BUG_START"@);
        } else if i == 83 {
            assert(protocol_event_names()[83] == "SWITCH_EVENT_MEDIA_BUG_STOP"@);
        } else if i == 84 {
            assert(protocol_event_names()[84] == "SWITCH_EVENT_CONFERENCE_DATA_QUERY"@);
        } else if i == 85 {
            assert(protocol_event_names()[85] == "SWITCH_EVENT_CONFERENCE_DATA"@);
        } else if i == 86 {
            assert(protocol_event_names()[86] == "SWITCH_EVENT_CALL_SETUP_REQ"@);
        } else if i == 87 {
            assert(protocol_event_names()[87] == "SWITCH_EVENT_CALL_SETUP_RESULT"@);
        } else if i == 88 {
            assert(protocol_event_names()[88] == "SWITCH_EVENT_CALL_DETAIL"@);
        } else if i == 89 {
            assert(protocol_event_names()[89] == "SWITCH_EVENT_DEVICE_STATE"@);
        } else if i == 90 {
            assert(protocol_event_names()[90] == "SWITCH_EVENT_TEXT"@);
        } else if i == 91 {
            assert(protocol_event_names()[91] == "SWITCH_EVENT_SHUTDOWN_REQUESTED"@);
        } else if i == 92 {
            assert(protocol_event_names()[92] == "SWITCH_EVENT_ALL"@);
        }
    }
}

/// The first event type, from number `i` on, whose name is `s`.
pub open spec fn event_type_named_from(s: Seq<char>, i: int) -> Option<EventTypes>
    decreases 93 - i,
{
    if i < 0 || i >= 93 {
        None
    } else if event_name_at(i) == Some(s) {
        event_type_at(i)
    } else {
        event_type_named_from(s, i + 1)
    }
}

/// The event type whose name is `s` (the lowest numbered, should two share it).
pub open spec fn event_type_named(s: Seq<char>) -> Option<EventTypes> {
    event_type_named_from(s, 0)
}

/// Every event type is numbered in range, and its number leads back to it.
pub proof fn lemma_event_type_index(e: EventTypes)
    ensures
        0 <= event_type_index(e) < 93,
        event_type_at(event_type_index(e)) == Some(e),
{
}

/// Numbers in range name an event type, and that type has this number.
pub proof fn lemma_event_type_at(i: int)
    ensures
        0 <= i < 93 ==> (event_type_at(i) matches Some(e) && event_type_index(e) == i),
        !(0 <= i < 93) ==> event_type_at(i) is None,
{
}


/// Recovers the number of an event type from its name, by looking at the
/// name's length and at the characters that tell the names apart.
spec fn event_number_of_name(s: Seq<char>) -> int {
    if s.len() == 16 {
        if s[14] == 'A' {
            74
        } else if s[14] == 'L' {
            92
        } else if s[14] == 'O' {
            24
        } else {
            23
        }
    } else if s.len() == 17 {
        if s[14] == 'A' {
            31
        } else if s[14] == 'E' {
            90
        } else if s[14] == 'R' {
            51
        } else {
            36
        }
    } else if s.len() == 18 {
        if s[14] == 'L' {
            1
        } else {
            45
        }
    } else if s.len() == 19 {
        if s[17] == 'E' {
            44
        } else if s[17] == 'F' {
            57
        } else if s[17] == 'L' {
            32
        } else {
            0
        }
    } else if s.len() == 20 {
        if s[13] == 'C' {
            65
        } else if s[13] == 'F' {
            80
        } else if s[13] == 'G' {
            64
        } else if s[13] == 'M' {
            37
        } else if s[13] == 'P' {
            29
        } else {
            27
        }
    } else if s.len() == 21 {
        28
    } else if s.len() == 22 {
        if s[15] == 'A' {
            50
        } else if s[15] == 'C' {
            70
        } else if s[15] == 'L' {
            56
        } else if s[15] == 'N' {
            69
        } else if s[15] == 'P' {
            30
        } else {
            39
        }
    } else if s.len() == 24 {
        if s[18] == 'D' {
            if s[13] == 'C' {
                88
            } else {
                76
            }
        } else if s[18] == 'E' {
            34
        } else if s[18] == 'H' {
            55
        } else if s[18] == 'N' {
            38
        } else if s[18] == 'S' {
            73
        } else if s[18] == 'T' {
            81
        } else {
            79
        }
    } else if s.len() == 25 {
        if s[13] == 'A' {
            52
        } else if s[13] == 'C' {
            if s[21] == 'D' {
                63
            } else if s[21] == 'H' {
                11
            } else if s[21] == 'P' {
                18
            } else {
                22
            }
        } else if s[13] == 'D' {
            if s[15] == 'L' {
                53
            } else {
                89
            }
        } else if s[13] == 'E' {
            54
        } else if s[13] == 'I' {
            25
        } else if s[13] == 'P' {
            40
        } else if s[13] == 'R' {
            if s[16] == 'O' {
                75
            } else {
                61
            }
        } else {
            60
        }
    } else if s.len() == 26 {
        if s[17] == 'A' {
            43
        } else if s[17] == 'B' {
            78
        } else if s[17] == 'C' {
            48
        } else if s[17] == 'E' {
            58
        } else if s[17] == 'I' {
            33
        } else if s[17] == 'L' {
            35
        } else if s[17] == 'N' {
            4
        } else {
            26
        }
    } else if s.len() == 27 {
        if s[21] == 'A' {
            6
        } else if s[21] == 'B' {
            13
        } else if s[21] == 'C' {
            2
        } else if s[21] == 'G' {
            83
        } else if s[21] == 'H' {
            7
        } else if s[21] == 'N' {
            46
        } else if s[21] == 'P' {
            62
        } else if s[21] == 'U' {
            if s[23] == 'H' {
                12
            } else if s[23] == 'P' {
                19
            } else {
                86
            }
        } else {
            if s[14] == 'L' {
                77
            } else {
                41
            }
        }
    } else if s.len() == 28 {
        if s[27] == 'A' {
            85
        } else if s[27] == 'D' {
            49
        } else if s[27] == 'E' {
            9
        } else if s[27] == 'G' {
            42
        } else if s[27] == 'H' {
            47
        } else if s[27] == 'T' {
            82
        } else {
            3
        }
    } else if s.len() == 29 {
        if s[21] == 'O' {
            17
        } else if s[21] == 'P' {
            15
        } else {
            14
        }
    } else if s.len() == 30 {
        if s[15] == 'A' {
            if s[21] == 'C' {
                5
            } else {
                21
            }
        } else if s[15] == 'C' {
            71
        } else if s[15] == 'L' {
            87
        } else if s[15] == 'N' {
            72
        } else {
            66
        }
    } else if s.len() == 31 {
        91
    } else if s.len() == 32 {
        if s[14] == 'E' {
            68
        } else if s[14] == 'H' {
            20
        } else {
            67
        }
    } else if s.len() == 34 {
        84
    } else if s.len() == 35 {
        16
    } else if s.len() == 36 {
        if s[13] == 'C' {
            8
        } else {
            59
        }
    } else {
        10
    }
}

/// Decoding an event type's name gives back its number.
proof fn lemma_event_number_of_name(e: EventTypes)
    ensures
        event_number_of_name(event_type_name(e)) == event_type_index(e),
{
    reveal_strlit("SWITCH_EVENT_CUSTOM");
    reveal_strlit("SWITCH_EVENT_CLONE");
    reveal_strlit("SWITCH_EVENT_CHANNEL_CREATE");
    reveal_strlit("SWITCH_EVENT_CHANNEL_DESTROY");
    reveal_strlit("SWITCH_EVENT_CHANNEL_STATE");
    reveal_strlit("SWITCH_EVENT_CHANNEL_CALLSTATE");
    reveal_strlit("SWITCH_EVENT_CHANNEL_ANSWER");
    reveal_strlit("SWITCH_EVENT_CHANNEL_HANGUP");
    reveal_strlit("SWITCH_EVENT_CHANNEL_HANGUP_COMPLETE");
    reveal_strlit("SWITCH_EVENT_CHANNEL_EXECUTE");
    reveal_strlit("SWITCH_EVENT_CHANNEL_EXECUTE_COMPLETE");
    reveal_strlit("SWITCH_EVENT_CHANNEL_HOLD");
    reveal_strlit("SWITCH_EVENT_CHANNEL_UNHOLD");
    reveal_strlit("SWITCH_EVENT_CHANNEL_BRIDGE");
    reveal_strlit("SWITCH_EVENT_CHANNEL_UNBRIDGE");
    reveal_strlit("SWITCH_EVENT_CHANNEL_PROGRESS");
    reveal_strlit("SWITCH_EVENT_CHANNEL_PROGRESS_MEDIA");
    reveal_strlit("SWITCH_EVENT_CHANNEL_OUTGOING");
    reveal_strlit("SWITCH_EVENT_CHANNEL_PARK");
    reveal_strlit("SWITCH_EVENT_CHANNEL_UNPARK");
    reveal_strlit("SWITCH_EVENT_CHANNEL_APPLICATION");
    reveal_strlit("SWITCH_EVENT_CHANNEL_ORIGINATE");
    reveal_strlit("SWITCH_EVENT_CHANNEL_UUID");
    reveal_strlit("SWITCH_EVENT_API");
    reveal_strlit("SWITCH_EVENT_LOG");
    reveal_strlit("SWITCH_EVENT_INBOUND_CHAN");
    reveal_strlit("SWITCH_EVENT_OUTBOUND_CHAN");
    reveal_strlit("SWITCH_EVENT_STARTUP");
    reveal_strlit("SWITCH_EVENT_SHUTDOWN");
    reveal_strlit("SWITCH_EVENT_PUBLISH");
    reveal_strlit("SWITCH_EVENT_UNPUBLISH");
    reveal_strlit("SWITCH_EVENT_TALK");
    reveal_strlit("SWITCH_EVENT_NOTALK");
    reveal_strlit("SWITCH_EVENT_SESSION_CRASH");
    reveal_strlit("SWITCH_EVENT_MODULE_LOAD");
    reveal_strlit("SWITCH_EVENT_MODULE_UNLOAD");
    reveal_strlit("SWITCH_EVENT_DTMF");
    reveal_strlit("SWITCH_EVENT_MESSAGE");
    reveal_strlit("SWITCH_EVENT_PRESENCE_IN");
    reveal_strlit("SWITCH_EVENT_NOTIFY_IN");
    reveal_strlit("SWITCH_EVENT_PRESENCE_OUT");
    reveal_strlit("SWITCH_EVENT_PRESENCE_PROBE");
    reveal_strlit("SWITCH_EVENT_MESSAGE_WAITING");
    reveal_strlit("SWITCH_EVENT_MESSAGE_QUERY");
    reveal_strlit("SWITCH_EVENT_ROSTER");
    reveal_strlit("SWITCH_EVENT_CODEC");
    reveal_strlit("SWITCH_EVENT_BACKGROUND_JOB");
    reveal_strlit("SWITCH_EVENT_DETECTED_SPEECH");
    reveal_strlit("SWITCH_EVENT_DETECTED_TONE");
    reveal_strlit("SWITCH_EVENT_PRIVATE_COMMAND");
    reveal_strlit("SWITCH_EVENT_HEARTBEAT");
    reveal_strlit("SWITCH_EVENT_TRAP");
    reveal_strlit("SWITCH_EVENT_ADD_SCHEDULE");
    reveal_strlit("SWITCH_EVENT_DEL_SCHEDULE");
    reveal_strlit("SWITCH_EVENT_EXE_SCHEDULE");
    reveal_strlit("SWITCH_EVENT_RE_SCHEDULE");
    reveal_strlit("SWITCH_EVENT_RELOADXML");
    reveal_strlit("SWITCH_EVENT_NOTIFY");
    reveal_strlit("SWITCH_EVENT_PHONE_FEATURE");
    reveal_strlit("SWITCH_EVENT_PHONE_FEATURE_SUBSCRIBE");
    reveal_strlit("SWITCH_EVENT_SEND_MESSAGE");
    reveal_strlit("SWITCH_EVENT_RECV_MESSAGE");
    reveal_strlit("SWITCH_EVENT_REQUEST_PARAMS");
    reveal_strlit("SWITCH_EVENT_CHANNEL_DATA");
    reveal_strlit("SWITCH_EVENT_GENERAL");
    reveal_strlit("SWITCH_EVENT_COMMAND");
    reveal_strlit("SWITCH_EVENT_SESSION_HEARTBEAT");
    reveal_strlit("SWITCH_EVENT_CLIENT_DISCONNECTED");
    reveal_strlit("SWITCH_EVENT_SERVER_DISCONNECTED");
    reveal_strlit("SWITCH_EVENT_SEND_INFO");
    reveal_strlit("SWITCH_EVENT_RECV_INFO");
    reveal_strlit("SWITCH_EVENT_RECV_RTCP_MESSAGE");
    reveal_strlit("SWITCH_EVENT_SEND_RTCP_MESSAGE");
    reveal_strlit("SWITCH_EVENT_CALL_SECURE");
    reveal_strlit("SWITCH_EVENT_NAT");
    reveal_strlit("SWITCH_EVENT_RECORD_START");
    reveal_strlit("SWITCH_EVENT_RECORD_STOP");
    reveal_strlit("SWITCH_EVENT_PLAYBACK_START");
    reveal_strlit("SWITCH_EVENT_PLAYBACK_STOP");
    reveal_strlit("SWITCH_EVENT_CALL_UPDATE");
    reveal_strlit("SWITCH_EVENT_FAILURE");
    reveal_strlit("SWITCH_EVENT_SOCKET_DATA");
    reveal_strlit("SWITCH_EVENT_MEDIA_BUG_START");
    reveal_strlit("SWITCH_EVENT_MEDIA_BUG_STOP");
    reveal_strlit("SWITCH_EVENT_CONFERENCE_DATA_QUERY");
    reveal_strlit("SWITCH_EVENT_CONFERENCE_DATA");
    reveal_strlit("SWITCH_EVENT_CALL_SETUP_REQ");
    reveal_strlit("SWITCH_EVENT_CALL_SETUP_RESULT");
    reveal_strlit("SWITCH_EVENT_CALL_DETAIL");
    reveal_strlit("SWITCH_EVENT_DEVICE_STATE");
    reveal_strlit("SWITCH_EVENT_TEXT");
    reveal_strlit("SWITCH_EVENT_SHUTDOWN_REQUESTED");
    reveal_strlit("SWITCH_EVENT_ALL");
}

/// No two event types share a name.
pub proof fn lemma_event_type_name_injective(e1: EventTypes, e2: EventTypes)
    requires
        event_type_name(e1) == event_type_name(e2),
    ensures
        e1 == e2,
{
    lemma_event_number_of_name(e1);
    lemma_event_number_of_name(e2);
    lemma_event_type_index(e1);
    lemma_event_type_index(e2);
}

/// Looking a name up from number `i` on finds `e` when `e` is numbered `i`
/// or later.
proof fn lemma_named_from(e: EventTypes, i: int)
    requires
        0 <= i <= event_type_index(e),
    ensures
        event_type_named_from(event_type_name(e), i) == Some(e),
    decreases event_type_index(e) - i,
{
    lemma_event_type_index(e);
    lemma_event_type_at(i);
    if i < event_type_index(e) {
        if event_name_at(i) == Some(event_type_name(e)) {
            let f = event_type_at(i)->0;
            lemma_event_type_name_injective(f, e);
        }
        lemma_named_from(e, i + 1);
    }
}

/// The name of an event type leads back to it: `from_str_name` undoes
/// `as_str_name`.
pub proof fn lemma_event_type_name_roundtrip(e: EventTypes)
    ensures
        event_type_named(event_type_name(e)) == Some(e),
{
    lemma_named_from(e, 0);
}

/// A name that is found belongs to the event type found.
pub proof fn lemma_event_type_named_sound(s: Seq<char>, i: int)
    requires
        0 <= i,
    ensures
        event_type_named_from(s, i) matches Some(e) ==> event_type_name(e) == s && event_type_index(e) >= i,
    decreases 93 - i,
{
    if i < 93 {
        lemma_event_type_at(i);
        lemma_event_type_named_sound(s, i + 1);
    }
}

impl EventTypes {
    /// The protocol number of this event type.
    pub fn as_u32(&self) -> (r: u32)
        ensures
            r as int == event_type_index(*self),
    {
        match self {
            EventTypes::SwitchEventCustom => 0,
            EventTypes::SwitchEventClone => 1,
            EventTypes::SwitchEventChannelCreate => 2,
            EventTypes::SwitchEventChannelDestroy => 3,
            EventTypes::SwitchEventChannelState => 4,
            EventTypes::SwitchEventChannelCallstate => 5,
            EventTypes::SwitchEventChannelAnswer => 6,
            EventTypes::SwitchEventChannelHangup => 7,
            EventTypes::SwitchEventChannelHangupComplete => 8,
            EventTypes::SwitchEventChannelExecute => 9,
            EventTypes::SwitchEventChannelExecuteComplete => 10,
            EventTypes::SwitchEventChannelHold => 11,
            EventTypes::SwitchEventChannelUnhold => 12,
            EventTypes::SwitchEventChannelBridge => 13,
            EventTypes::SwitchEventChannelUnbridge => 14,
            EventTypes::SwitchEventChannelProgress => 15,
            EventTypes::SwitchEventChannelProgressMedia => 16,
            EventTypes::SwitchEventChannelOutgoing => 17,
            EventTypes::SwitchEventChannelPark => 18,
            EventTypes::SwitchEventChannelUnpark => 19,
            EventTypes::SwitchEventChannelApplication => 20,
            EventTypes::SwitchEventChannelOriginate => 21,
            EventTypes::SwitchEventChannelUuid => 22,
            EventTypes::SwitchEventApi => 23,
            EventTypes::SwitchEventLog => 24,
            EventTypes::SwitchEventInboundChan => 25,
            EventTypes::SwitchEventOutboundChan => 26,
            EventTypes::SwitchEventStartup => 27,
            EventTypes::SwitchEventShutdown => 28,
            EventTypes::SwitchEventPublish => 29,
            EventTypes::SwitchEventUnpublish => 30,
            EventTypes::SwitchEventTalk => 31,
            EventTypes::SwitchEventNotalk => 32,
            EventTypes::SwitchEventSessionCrash => 33,
            EventTypes::SwitchEventModuleLoad => 34,
            EventTypes::SwitchEventModuleUnload => 35,
            EventTypes::SwitchEventDtmf => 36,
            EventTypes::SwitchEventMessage => 37,
            EventTypes::SwitchEventPresenceIn => 38,
            EventTypes::SwitchEventNotifyIn => 39,
            EventTypes::SwitchEventPresenceOut => 40,
            EventTypes::SwitchEventPresenceProbe => 41,
            EventTypes::SwitchEventMessageWaiting => 42,
            EventTypes::SwitchEventMessageQuery => 43,
            EventTypes::SwitchEventRoster => 44,
            EventTypes::SwitchEventCodec => 45,
            EventTypes::SwitchEventBackgroundJob => 46,
            EventTypes::SwitchEventDetectedSpeech => 47,
            EventTypes::SwitchEventDetectedTone => 48,
            EventTypes::SwitchEventPrivateCommand => 49,
            EventTypes::SwitchEventHeartbeat => 50,
            EventTypes::SwitchEventTrap => 51,
            EventTypes::SwitchEventAddSchedule => 52,
            EventTypes::SwitchEventDelSchedule => 53,
            EventTypes::SwitchEventExeSchedule => 54,
            EventTypes::SwitchEventReSchedule => 55,
            EventTypes::SwitchEventReloadxml => 56,
            EventTypes::SwitchEventNotify => 57,
            EventTypes::SwitchEventPhoneFeature => 58,
            EventTypes::SwitchEventPhoneFeatureSubscribe => 59,
            EventTypes::SwitchEventSendMessage => 60,
            EventTypes::SwitchEventRecvMessage => 61,
            EventTypes::SwitchEventRequestParams => 62,
            EventTypes::SwitchEventChannelData => 63,
            EventTypes::SwitchEventGeneral => 64,
            EventTypes::SwitchEventCommand => 65,
            EventTypes::SwitchEventSessionHeartbeat => 66,
            EventTypes::SwitchEventClientDisconnected => 67,
            EventTypes::SwitchEventServerDisconnected => 68,
            EventTypes::SwitchEventSendInfo => 69,
            EventTypes::SwitchEventRecvInfo => 70,
            EventTypes::SwitchEventRecvRtcpMessage => 71,
            EventTypes::SwitchEventSendRtcpMessage => 72,
            EventTypes::SwitchEventCallSecure => 73,
            EventTypes::SwitchEventNat => 74,
            EventTypes::SwitchEventRecordStart => 75,
            EventTypes::SwitchEventRecordStop => 76,
            EventTypes::SwitchEventPlaybackStart => 77,
            EventTypes::SwitchEventPlaybackStop => 78,
            EventTypes::SwitchEventCallUpdate => 79,
            EventTypes::SwitchEventFailure => 80,
            EventTypes::SwitchEventSocketData => 81,
            EventTypes::SwitchEventMediaBugStart => 82,
            EventTypes::SwitchEventMediaBugStop => 83,
            EventTypes::SwitchEventConferenceDataQuery => 84,
            EventTypes::SwitchEventConferenceData => 85,
            EventTypes::SwitchEventCallSetupReq => 86,
            EventTypes::SwitchEventCallSetupResult => 87,
            EventTypes::SwitchEventCallDetail => 88,
            EventTypes::SwitchEventDeviceState => 89,
            EventTypes::SwitchEventText => 90,
            EventTypes::SwitchEventShutdownRequested => 91,
            EventTypes::SwitchEventAll => 92,
        }
    }

    /// The event type with protocol number `i`, if there is one.
    pub fn from_u32(i: u32) -> (r: Option<EventTypes>)
        ensures
            r == event_type_at(i as int),
    {
        match i {
            0 => Some(EventTypes::SwitchEventCustom),
            1 => Some(EventTypes::SwitchEventClone),
            2 => Some(EventTypes::SwitchEventChannelCreate),
            3 => Some(EventTypes::SwitchEventChannelDestroy),
            4 => Some(EventTypes::SwitchEventChannelState),
            5 => Some(EventTypes::SwitchEventChannelCallstate),
            6 => Some(EventTypes::SwitchEventChannelAnswer),
            7 => Some(EventTypes::SwitchEventChannelHangup),
            8 => Some(EventTypes::SwitchEventChannelHangupComplete),
            9 => Some(EventTypes::SwitchEventChannelExecute),
            10 => Some(EventTypes::SwitchEventChannelExecuteComplete),
            11 => Some(EventTypes::SwitchEventChannelHold),
            12 => Some(EventTypes::SwitchEventChannelUnhold),
            13 => Some(EventTypes::SwitchEventChannelBridge),
            14 => Some(EventTypes::SwitchEventChannelUnbridge),
            15 => Some(EventTypes::SwitchEventChannelProgress),
            16 => Some(EventTypes::SwitchEventChannelProgressMedia),
            17 => Some(EventTypes::SwitchEventChannelOutgoing),
            18 => Some(EventTypes::SwitchEventChannelPark),
            19 => Some(EventTypes::SwitchEventChannelUnpark),
            20 => Some(EventTypes::SwitchEventChannelApplication),
            21 => Some(EventTypes::SwitchEventChannelOriginate),
            22 => Some(EventTypes::SwitchEventChannelUuid),
            23 => Some(EventTypes::SwitchEventApi),
            24 => Some(EventTypes::SwitchEventLog),
            25 => Some(EventTypes::SwitchEventInboundChan),
            26 => Some(EventTypes::SwitchEventOutboundChan),
            27 => Some(EventTypes::SwitchEventStartup),
            28 => Some(EventTypes::SwitchEventShutdown),
            29 => Some(EventTypes::SwitchEventPublish),
            30 => Some(EventTypes::SwitchEventUnpublish),
            31 => Some(EventTypes::SwitchEventTalk),
            32 => Some(EventTypes::SwitchEventNotalk),
            33 => Some(EventTypes::SwitchEventSessionCrash),
            34 => Some(EventTypes::SwitchEventModuleLoad),
            35 => Some(EventTypes::SwitchEventModuleUnload),
            36 => Some(EventTypes::SwitchEventDtmf),
            37 => Some(EventTypes::SwitchEventMessage),
            38 => Some(EventTypes::SwitchEventPresenceIn),
            39 => Some(EventTypes::SwitchEventNotifyIn),
            40 => Some(EventTypes::SwitchEventPresenceOut),
            41 => Some(EventTypes::SwitchEventPresenceProbe),
            42 => Some(EventTypes::SwitchEventMessageWaiting),
            43 => Some(EventTypes::SwitchEventMessageQuery),
            44 => Some(EventTypes::SwitchEventRoster),
            45 => Some(EventTypes::SwitchEventCodec),
            46 => Some(EventTypes::SwitchEventBackgroundJob),
            47 => Some(EventTypes::SwitchEventDetectedSpeech),
            48 => Some(EventTypes::SwitchEventDetectedTone),
            49 => Some(EventTypes::SwitchEventPrivateCommand),
            50 => Some(EventTypes::SwitchEventHeartbeat),
            51 => Some(EventTypes::SwitchEventTrap),
            52 => Some(EventTypes::SwitchEventAddSchedule),
            53 => Some(EventTypes::SwitchEventDelSchedule),
            54 => Some(EventTypes::SwitchEventExeSchedule),
            55 => Some(EventTypes::SwitchEventReSchedule),
            56 => Some(EventTypes::SwitchEventReloadxml),
            57 => Some(EventTypes::SwitchEventNotify),
            58 => Some(EventTypes::SwitchEventPhoneFeature),
            59 => Some(EventTypes::SwitchEventPhoneFeatureSubscribe),
            60 => Some(EventTypes::SwitchEventSendMessage),
            61 => Some(EventTypes::SwitchEventRecvMessage),
            62 => Some(EventTypes::SwitchEventRequestParams),
            63 => Some(EventTypes::SwitchEventChannelData),
            64 => Some(EventTypes::SwitchEventGeneral),
            65 => Some(EventTypes::SwitchEventCommand),
            66 => Some(EventTypes::SwitchEventSessionHeartbeat),
            67 => Some(EventTypes::SwitchEventClientDisconnected),
            68 => Some(EventTypes::SwitchEventServerDisconnected),
            69 => Some(EventTypes::SwitchEventSendInfo),
            70 => Some(EventTypes::SwitchEventRecvInfo),
            71 => Some(EventTypes::SwitchEventRecvRtcpMessage),
            72 => Some(EventTypes::SwitchEventSendRtcpMessage),
            73 => Some(EventTypes::SwitchEventCallSecure),
            74 => Some(EventTypes::SwitchEventNat),
            75 => Some(EventTypes::SwitchEventRecordStart),
            76 => Some(EventTypes::SwitchEventRecordStop),
            77 => Some(EventTypes::SwitchEventPlaybackStart),
            78 => Some(EventTypes::SwitchEventPlaybackStop),
            79 => Some(EventTypes::SwitchEventCallUpdate),
            80 => Some(EventTypes::SwitchEventFailure),
            81 => Some(EventTypes::SwitchEventSocketData),
            82 => Some(EventTypes::SwitchEventMediaBugStart),
            83 => Some(EventTypes::SwitchEventMediaBugStop),
            84 => Some(EventTypes::SwitchEventConferenceDataQuery),
            85 => Some(EventTypes::SwitchEventConferenceData),
            86 => Some(EventTypes::SwitchEventCallSetupReq),
            87 => Some(EventTypes::SwitchEventCallSetupResult),
            88 => Some(EventTypes::SwitchEventCallDetail),
            89 => Some(EventTypes::SwitchEventDeviceState),
            90 => Some(EventTypes::SwitchEventText),
            91 => Some(EventTypes::SwitchEventShutdownRequested),
            92 => Some(EventTypes::SwitchEventAll),
            _ => None,
        }
    }

    /// String value of the enum field names used in the protocol definition.
    pub fn as_str_name(&self) -> (r: &'static str)
        ensures
            r@ == event_type_name(*self),
    {
        match self {
            EventTypes::SwitchEventCustom => "SWITCH_EVENT_CUSTOM",
            EventTypes::SwitchEventClone => "SWITCH_EVENT_CLONE",
            EventTypes::SwitchEventChannelCreate => "SWITCH_EVENT_CHANNEL_CREATE",
            EventTypes::SwitchEventChannelDestroy => "SWITCH_EVENT_CHANNEL_DESTROY",
            EventTypes::SwitchEventChannelState => "SWITCH_EVENT_CHANNEL_STATE",
            EventTypes::SwitchEventChannelCallstate => "SWITCH_EVENT_CHANNEL_CALLSTATE",
            EventTypes::SwitchEventChannelAnswer => "SWITCH_EVENT_CHANNEL_ANSWER",
            EventTypes::SwitchEventChannelHangup => "SWITCH_EVENT_CHANNEL_HANGUP",
            EventTypes::SwitchEventChannelHangupComplete => "SWITCH_EVENT_CHANNEL_HANGUP_COMPLETE",
            EventTypes::SwitchEventChannelExecute => "SWITCH_EVENT_CHANNEL_EXECUTE",
            EventTypes::SwitchEventChannelExecuteComplete => "SWITCH_EVENT_CHANNEL_EXECUTE_COMPLETE",
            EventTypes::SwitchEventChannelHold => "SWITCH_EVENT_CHANNEL_HOLD",
            EventTypes::SwitchEventChannelUnhold => "SWITCH_EVENT_CHANNEL_UNHOLD",
            EventTypes::SwitchEventChannelBridge => "SWITCH_EVENT_CHANNEL_BRIDGE",
            EventTypes::SwitchEventChannelUnbridge => "SWITCH_EVENT_CHANNEL_UNBRIDGE",
            EventTypes::SwitchEventChannelProgress => "SWITCH_EVENT_CHANNEL_PROGRESS",
            EventTypes::SwitchEventChannelProgressMedia => "SWITCH_EVENT_CHANNEL_PROGRESS_MEDIA",
            EventTypes::SwitchEventChannelOutgoing => "SWITCH_EVENT_CHANNEL_OUTGOING",
            EventTypes::SwitchEventChannelPark => "SWITCH_EVENT_CHANNEL_PARK",
            EventTypes::SwitchEventChannelUnpark => "SWITCH_EVENT_CHANNEL_UNPARK",
            EventTypes::SwitchEventChannelApplication => "SWITCH_EVENT_CHANNEL_APPLICATION",
            EventTypes::SwitchEventChannelOriginate => "SWITCH_EVENT_CHANNEL_ORIGINATE",
            EventTypes::SwitchEventChannelUuid => "SWITCH_EVENT_CHANNEL_UUID",
            EventTypes::SwitchEventApi => "SWITCH_EVENT_API",
            EventTypes::SwitchEventLog => "SWITCH_EVENT_LOG",
            EventTypes::SwitchEventInboundChan => "SWITCH_EVENT_INBOUND_CHAN",
            EventTypes::SwitchEventOutboundChan => "SWITCH_EVENT_OUTBOUND_CHAN",
            EventTypes::SwitchEventStartup => "SWITCH_EVENT_STARTUP",
            EventTypes::SwitchEventShutdown => "SWITCH_EVENT_SHUTDOWN",
            EventTypes::SwitchEventPublish => "SWITCH_EVENT_PUBLISH",
            EventTypes::SwitchEventUnpublish => "SWITCH_EVENT_UNPUBLISH",
            EventTypes::SwitchEventTalk => "SWITCH_EVENT_TALK",
            EventTypes::SwitchEventNotalk => "SWITCH_EVENT_NOTALK",
            EventTypes::SwitchEventSessionCrash => "SWITCH_EVENT_SESSION_CRASH",
            EventTypes::SwitchEventModuleLoad => "SWITCH_EVENT_MODULE_LOAD",
            EventTypes::SwitchEventModuleUnload => "SWITCH_EVENT_MODULE_UNLOAD",
            EventTypes::SwitchEventDtmf => "SWITCH_EVENT_DTMF",
            EventTypes::SwitchEventMessage => "SWITCH_EVENT_MESSAGE",
            EventTypes::SwitchEventPresenceIn => "SWITCH_EVENT_PRESENCE_IN",
            EventTypes::SwitchEventNotifyIn => "SWITCH_EVENT_NOTIFY_IN",
            EventTypes::SwitchEventPresenceOut => "SWITCH_EVENT_PRESENCE_OUT",
            EventTypes::SwitchEventPresenceProbe => "SWITCH_EVENT_PRESENCE_PROBE",
            EventTypes::SwitchEventMessageWaiting => "SWITCH_EVENT_MESSAGE_WAITING",
            EventTypes::SwitchEventMessageQuery => "SWITCH_EVENT_MESSAGE_QUERY",
            EventTypes::SwitchEventRoster => "SWITCH_EVENT_ROSTER",
            EventTypes::SwitchEventCodec => "SWITCH_EVENT_CODEC",
            EventTypes::SwitchEventBackgroundJob => "SWITCH_EVENT_BACKGROUND_JOB",
            EventTypes::SwitchEventDetectedSpeech => "SWITCH_EVENT_DETECTED_SPEECH",
            EventTypes::SwitchEventDetectedTone => "SWITCH_EVENT_DETECTED_TONE",
            EventTypes::SwitchEventPrivateCommand => "SWITCH_EVENT_PRIVATE_COMMAND",
            EventTypes::SwitchEventHeartbeat => "SWITCH_EVENT_HEARTBEAT",
            EventTypes::SwitchEventTrap => "SWITCH_EVENT_TRAP",
            EventTypes::SwitchEventAddSchedule => "SWITCH_EVENT_ADD_SCHEDULE",
            EventTypes::SwitchEventDelSchedule => "SWITCH_EVENT_DEL_SCHEDULE",
            EventTypes::SwitchEventExeSchedule => "SWITCH_EVENT_EXE_SCHEDULE",
            EventTypes::SwitchEventReSchedule => "SWITCH_EVENT_RE_SCHEDULE",
            EventTypes::SwitchEventReloadxml => "SWITCH_EVENT_RELOADXML",
            EventTypes::SwitchEventNotify => "SWITCH_EVENT_NOTIFY",
            EventTypes::SwitchEventPhoneFeature => "SWITCH_EVENT_PHONE_FEATURE",
            EventTypes::SwitchEventPhoneFeatureSubscribe => "SWITCH_EVENT_PHONE_FEATURE_SUBSCRIBE",
            EventTypes::SwitchEventSendMessage => "SWITCH_EVENT_SEND_MESSAGE",
            EventTypes::SwitchEventRecvMessage => "SWITCH_EVENT_RECV_MESSAGE",
            EventTypes::SwitchEventRequestParams => "SWITCH_EVENT_REQUEST_PARAMS",
            EventTypes::SwitchEventChannelData => "SWITCH_EVENT_CHANNEL_DATA",
            EventTypes::SwitchEventGeneral => "SWITCH_EVENT_GENERAL",
            EventTypes::SwitchEventCommand => "SWITCH_EVENT_COMMAND",
            EventTypes::SwitchEventSessionHeartbeat => "SWITCH_EVENT_SESSION_HEARTBEAT",
            EventTypes::SwitchEventClientDisconnected => "SWITCH_EVENT_CLIENT_DISCONNECTED",
            EventTypes::SwitchEventServerDisconnected => "SWITCH_EVENT_SERVER_DISCONNECTED",
            EventTypes::SwitchEventSendInfo => "SWITCH_EVENT_SEND_INFO",
            EventTypes::SwitchEventRecvInfo => "SWITCH_EVENT_RECV_INFO",
            EventTypes::SwitchEventRecvRtcpMessage => "SWITCH_EVENT_RECV_RTCP_MESSAGE",
            EventTypes::SwitchEventSendRtcpMessage => "SWITCH_EVENT_SEND_RTCP_MESSAGE",
            EventTypes::SwitchEventCallSecure => "SWITCH_EVENT_CALL_SECURE",
            EventTypes::SwitchEventNat => "SWITCH_EVENT_NAT",
            EventTypes::SwitchEventRecordStart => "SWITCH_EVENT_RECORD_START",
            EventTypes::SwitchEventRecordStop => "SWITCH_EVENT_RECORD_STOP",
            EventTypes::SwitchEventPlaybackStart => "SWITCH_EVENT_PLAYBACK_START",
            EventTypes::SwitchEventPlaybackStop => "SWITCH_EVENT_PLAYBACK_STOP",
            EventTypes::SwitchEventCallUpdate => "SWITCH_EVENT_CALL_UPDATE",
            EventTypes::SwitchEventFailure => "SWITCH_EVENT_FAILURE",
            EventTypes::SwitchEventSocketData => "SWITCH_EVENT_SOCKET_DATA",
            EventTypes::SwitchEventMediaBugStart => "SWITCH_EVENT_MEDIA_BUG_START",
            EventTypes::SwitchEventMediaBugStop => "SWITCH_EVENT_MEDIA_BUG_STOP",
            EventTypes::SwitchEventConferenceDataQuery => "SWITCH_EVENT_CONFERENCE_DATA_QUERY",
            EventTypes::SwitchEventConferenceData => "SWITCH_EVENT_CONFERENCE_DATA",
            EventTypes::SwitchEventCallSetupReq => "SWITCH_EVENT_CALL_SETUP_REQ",
            EventTypes::SwitchEventCallSetupResult => "SWITCH_EVENT_CALL_SETUP_RESULT",
            EventTypes::SwitchEventCallDetail => "SWITCH_EVENT_CALL_DETAIL",
            EventTypes::SwitchEventDeviceState => "SWITCH_EVENT_DEVICE_STATE",
            EventTypes::SwitchEventText => "SWITCH_EVENT_TEXT",
            EventTypes::SwitchEventShutdownRequested => "SWITCH_EVENT_SHUTDOWN_REQUESTED",
            EventTypes::SwitchEventAll => "SWITCH_EVENT_ALL",
        }
    }

    /// Creates an enum from field names used in the protocol definition.
    pub fn from_str_name(value: &str) -> (r: Option<EventTypes>)
        ensures
            r == event_type_named(value@),
    {
        let v = str_to_chars(value);
        let mut i: u32 = 0;
        while i < EVENT_TYPE_COUNT
            invariant
                i <= EVENT_TYPE_COUNT,
                v@ == value@,
                event_type_named(value@) == event_type_named_from(value@, i as int),
            decreases EVENT_TYPE_COUNT - i,
        {
            proof {
                lemma_event_type_at(i as int);
            }
            match EventTypes::from_u32(i) {
                Some(e) => {
                    if chars_eq_str(v.as_slice(), e.as_str_name()) {
                        return Some(e);
                    }
                },
                None => {},
            }
            i = i + 1;
        }
        None
    }
}

/// The core's numeric event type (`switch_event_types_t`): the event number,
/// which follows the protocol order of `EventTypes`.
#[derive(Clone, Copy, Debug, PartialEq, Eq, Structural, Hash)]
pub struct switch_event_types_t(pub u32);

/// Number of the custom event type, whose events carry a subclass name.
pub const SWITCH_EVENT_CUSTOM: u32 = 0;

/// Number of the event type of cloned events (used for session messages).
pub const SWITCH_EVENT_CLONE: u32 = 1;

/// Number of the heartbeat event type.
pub const SWITCH_EVENT_HEARTBEAT: u32 = 50;

/// Number that stands for all event types when subscribing.
pub const SWITCH_EVENT_ALL: u32 = 92;

/// The name `event_id_str_name` gives an event number: the event type's name
/// for every number up to `SWITCH_EVENT_ALL`, `SWITCH_EVENT_NONE` for the
/// others.
pub open spec fn switch_event_id_str_name(id: u32) -> Seq<char> {
    if id <= SWITCH_EVENT_ALL {
        event_type_name(event_type_at(id as int)->0)
    } else {
        "SWITCH_EVENT_NONE"@
    }
}

/// The core event type named `s`, if any.
pub open spec fn switch_event_type_named(s: Seq<char>) -> Option<switch_event_types_t> {
    match event_type_named(s) {
        Some(e) => Some(switch_event_types_t(event_type_index(e) as u32)),
        None => None,
    }
}

impl switch_event_types_t {
    /// The name of this event number (`SWITCH_EVENT_NONE` past `SWITCH_EVENT_ALL`).
    pub fn event_id_str_name(self) -> (r: &'static str)
        ensures
            r@ == switch_event_id_str_name(self.0),
    {
        if self.0 <= SWITCH_EVENT_ALL {
            proof {
                lemma_event_type_at(self.0 as int);
            }
            match EventTypes::from_u32(self.0) {
                Some(e) => e.as_str_name(),
                None => "SWITCH_EVENT_NONE",
            }
        } else {
            "SWITCH_EVENT_NONE"
        }
    }

    /// Creates an event number from an event type name.
    pub fn from_str(value: &str) -> (r: Option<switch_event_types_t>)
        ensures
            r == switch_event_type_named(value@),
    {
        match EventTypes::from_str_name(value) {
            Some(e) => {
                proof {
                    lemma_event_type_index(e);
                }
                Some(switch_event_types_t(e.as_u32()))
            },
            None => None,
        }
    }
}

/// `SWITCH_EVENT_NONE` is not the name of any event type.
pub proof fn lemma_none_is_not_an_event_name()
    ensures
        event_type_named("SWITCH_EVENT_NONE"@) is None,
{
    lemma_event_type_named_sound("SWITCH_EVENT_NONE"@, 0);
    if event_type_named("SWITCH_EVENT_NONE"@) is Some {
        let e = event_type_named("SWITCH_EVENT_NONE"@)->0;
        lemma_event_number_of_name(e);
        reveal_strlit("SWITCH_EVENT_NONE");
    reveal_strlit("SWITCH_EVENT_CUSTOM");
        reveal_strlit("SWITCH_EVENT_CLONE");
        reveal_strlit("SWITCH_EVENT_CHANNEL_CREATE");
        reveal_strlit("SWITCH_EVENT_CHANNEL_DESTROY");
        reveal_strlit("SWITCH_EVENT_CHANNEL_STATE");
        reveal_strlit("SWITCH_EVENT_CHANNEL_CALLSTATE");
        reveal_strlit("SWITCH_EVENT_CHANNEL_ANSWER");
        reveal_strlit("SWITCH_EVENT_CHANNEL_HANGUP");
        reveal_strlit("SWITCH_EVENT_CHANNEL_HANGUP_COMPLETE");
        reveal_strlit("SWITCH_EVENT_CHANNEL_EXECUTE");
        reveal_strlit("SWITCH_EVENT_CHANNEL_EXECUTE_COMPLETE");
        reveal_strlit("SWITCH_EVENT_CHANNEL_HOLD");
        reveal_strlit("SWITCH_EVENT_CHANNEL_UNHOLD");
        reveal_strlit("SWITCH_EVENT_CHANNEL_BRIDGE");
        reveal_strlit("SWITCH_EVENT_CHANNEL_UNBRIDGE");
        reveal_strlit("SWITCH_EVENT_CHANNEL_PROGRESS");
        reveal_strlit("SWITCH_EVENT_CHANNEL_PROGRESS_MEDIA");
        reveal_strlit("SWITCH_EVENT_CHANNEL_OUTGOING");
        reveal_strlit("SWITCH_EVENT_CHANNEL_PARK");
        reveal_strlit("SWITCH_EVENT_CHANNEL_UNPARK");
        reveal_strlit("SWITCH_EVENT_CHANNEL_APPLICATION");
        reveal_strlit("SWITCH_EVENT_CHANNEL_ORIGINATE");
        reveal_strlit("SWITCH_EVENT_CHANNEL_UUID");
        reveal_strlit("SWITCH_EVENT_API");
        reveal_strlit("SWITCH_EVENT_LOG");
        reveal_strlit("SWITCH_EVENT_INBOUND_CHAN");
        reveal_strlit("SWITCH_EVENT_OUTBOUND_CHAN");
        reveal_strlit("SWITCH_EVENT_STARTUP");
        reveal_strlit("SWITCH_EVENT_SHUTDOWN");
        reveal_strlit("SWITCH_EVENT_PUBLISH");
        reveal_strlit("SWITCH_EVENT_UNPUBLISH");
        reveal_strlit("SWITCH_EVENT_TALK");
        reveal_strlit("SWITCH_EVENT_NOTALK");
        reveal_strlit("SWITCH_EVENT_SESSION_CRASH");
        reveal_strlit("SWITCH_EVENT_MODULE_LOAD");
        reveal_strlit("SWITCH_EVENT_MODULE_UNLOAD");
        reveal_strlit("SWITCH_EVENT_DTMF");
        reveal_strlit("SWITCH_EVENT_MESSAGE");
        reveal_strlit("SWITCH_EVENT_PRESENCE_IN");
        reveal_strlit("SWITCH_EVENT_NOTIFY_IN");
        reveal_strlit("SWITCH_EVENT_PRESENCE_OUT");
        reveal_strlit("SWITCH_EVENT_PRESENCE_PROBE");
        reveal_strlit("SWITCH_EVENT_MESSAGE_WAITING");
        reveal_strlit("SWITCH_EVENT_MESSAGE_QUERY");
        reveal_strlit("SWITCH_EVENT_ROSTER");
        reveal_strlit("SWITCH_EVENT_CODEC");
        reveal_strlit("SWITCH_EVENT_BACKGROUND_JOB");
        reveal_strlit("SWITCH_EVENT_DETECTED_SPEECH");
        reveal_strlit("SWITCH_EVENT_DETECTED_TONE");
        reveal_strlit("SWITCH_EVENT_PRIVATE_COMMAND");
        reveal_strlit("SWITCH_EVENT_HEARTBEAT");
        reveal_strlit("SWITCH_EVENT_TRAP");
        reveal_strlit("SWITCH_EVENT_ADD_SCHEDULE");
        reveal_strlit("SWITCH_EVENT_DEL_SCHEDULE");
        reveal_strlit("SWITCH_EVENT_EXE_SCHEDULE");
        reveal_strlit("SWITCH_EVENT_RE_SCHEDULE");
        reveal_strlit("SWITCH_EVENT_RELOADXML");
        reveal_strlit("SWITCH_EVENT_NOTIFY");
        reveal_strlit("SWITCH_EVENT_PHONE_FEATURE");
        reveal_strlit("SWITCH_EVENT_PHONE_FEATURE_SUBSCRIBE");
        reveal_strlit("SWITCH_EVENT_SEND_MESSAGE");
        reveal_strlit("SWITCH_EVENT_RECV_MESSAGE");
        reveal_strlit("SWITCH_EVENT_REQUEST_PARAMS");
        reveal_strlit("SWITCH_EVENT_CHANNEL_DATA");
        reveal_strlit("SWITCH_EVENT_GENERAL");
        reveal_strlit("SWITCH_EVENT_COMMAND");
        reveal_strlit("SWITCH_EVENT_SESSION_HEARTBEAT");
        reveal_strlit("SWITCH_EVENT_CLIENT_DISCONNECTED");
        reveal_strlit("SWITCH_EVENT_SERVER_DISCONNECTED");
        reveal_strlit("SWITCH_EVENT_SEND_INFO");
        reveal_strlit("SWITCH_EVENT_RECV_INFO");
        reveal_strlit("SWITCH_EVENT_RECV_RTCP_MESSAGE");
        reveal_strlit("SWITCH_EVENT_SEND_RTCP_MESSAGE");
        reveal_strlit("SWITCH_EVENT_CALL_SECURE");
        reveal_strlit("SWITCH_EVENT_NAT");
        reveal_strlit("SWITCH_EVENT_RECORD_START");
        reveal_strlit("SWITCH_EVENT_RECORD_STOP");
        reveal_strlit("SWITCH_EVENT_PLAYBACK_START");
        reveal_strlit("SWITCH_EVENT_PLAYBACK_STOP");
        reveal_strlit("SWITCH_EVENT_CALL_UPDATE");
        reveal_strlit("SWITCH_EVENT_FAILURE");
        reveal_strlit("SWITCH_EVENT_SOCKET_DATA");
        reveal_strlit("SWITCH_EVENT_MEDIA_BUG_START");
        reveal_strlit("SWITCH_EVENT_MEDIA_BUG_STOP");
        reveal_strlit("SWITCH_EVENT_CONFERENCE_DATA_QUERY");
        reveal_strlit("SWITCH_EVENT_CONFERENCE_DATA");
        reveal_strlit("SWITCH_EVENT_CALL_SETUP_REQ");
        reveal_strlit("SWITCH_EVENT_CALL_SETUP_RESULT");
        reveal_strlit("SWITCH_EVENT_CALL_DETAIL");
        reveal_strlit("SWITCH_EVENT_DEVICE_STATE");
        reveal_strlit("SWITCH_EVENT_TEXT");
        reveal_strlit("SWITCH_EVENT_SHUTDOWN_REQUESTED");
        reveal_strlit("SWITCH_EVENT_ALL");
    }
}

/// The names of the core event numbers lead back to them: `from_str`
/// undoes `event_id_str_name` for every one of the 93 event types, and finds
/// nothing for the other numbers.
pub proof fn lemma_switch_event_name_roundtrip(t: switch_event_types_t)
    ensures
        t.0 <= SWITCH_EVENT_ALL ==> switch_event_type_named(switch_event_id_str_name(t.0)) == Some(t),
        t.0 > SWITCH_EVENT_ALL ==> switch_event_type_named(switch_event_id_str_name(t.0)) is None,
{
    if t.0 <= SWITCH_EVENT_ALL {
        lemma_event_type_at(t.0 as int);
        let e = event_type_at(t.0 as int)->0;
        lemma_event_type_name_roundtrip(e);
    } else {
        lemma_none_is_not_an_event_name();
    }
}

/// The two name tables agree: a name gives the core event number exactly
/// when it gives the protocol event type of that number.
pub proof fn lemma_event_numbering_agrees(s: Seq<char>)
    ensures
        switch_event_type_named(s) matches Some(t) ==> (event_type_named(s) matches Some(e)
            && event_type_index(e) == t.0),
        switch_event_type_named(s) is None <==> event_type_named(s) is None,
{
    if event_type_named(s) is Some {
        lemma_event_type_index(event_type_named(s)->0);
    }
}

} // verus!
