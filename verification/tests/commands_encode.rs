//! Exact encodings of the outbound broadcast commands.

use simetry::commands::{
    camera, chat, clean_windshield, fast_repair, force_feedback, pit, refueling, reload_textures,
    replay, telemetry, tires, video, BroadcastPayload,
};
use simetry::commands::camera::CameraState;
use simetry::commands::replay::PlayPosition;
use simetry::commands::tires::TireCorner;
use simetry::{PitCommand, ReloadTexturesMode};

fn fields(p: BroadcastPayload) -> (u16, u16, i64) {
    (p.code, p.var1, p.var2)
}

#[test]
fn clearing_force_feedback_sends_the_sentinel_not_a_force() {
    // Clearing is -1.0 in fixed point (65536 per unit), never a literal
    // negative force value.
    let p = force_feedback::clear();
    assert_eq!(fields(p), (11, 0, -65536));
    let set = force_feedback::set_fixed_point((25.0f32 * 65536.0) as i64);
    assert_eq!(fields(set), (11, 0, 25 * 65536));
}

#[test]
fn message_words_pack_code_and_first_parameter() {
    let p = camera::switch_to_position(1, 2, 3);
    let (wparam, lparam) = p.message_words();
    assert_eq!(wparam, 0 + (1 << 16));
    assert_eq!(lparam, 2 + (3 << 16));
    let (wparam, lparam) = force_feedback::clear().message_words();
    assert_eq!(wparam, 11);
    assert_eq!(lparam, -65536);
}

#[test]
fn camera_commands() {
    assert_eq!(fields(camera::switch_to_position(5, 2, 3)), (0, 5, 2 + 3 * 0x10000));
    assert_eq!(fields(camera::switch_to_car_number(12, 1, 0)), (1, 12, 1));
    assert_eq!(fields(camera::set_state(CameraState(0x0004 | 0x0008))), (2, 12, 0));
}

#[test]
fn chat_commands() {
    assert_eq!(fields(chat::run_macro(7)), (8, 0, 7));
    assert_eq!(fields(chat::open()), (8, 1, 0));
    assert_eq!(fields(chat::reply()), (8, 2, 0));
    assert_eq!(fields(chat::close()), (8, 3, 0));
}

#[test]
fn pit_commands() {
    assert_eq!(fields(pit::clear()), (9, 0, 0));
    assert_eq!(fields(pit::all_off()), (9, 0, 0));
    assert_eq!(fields(pit::ws()), (9, 1, 0));
    assert_eq!(fields(pit::fuel(53)), (9, 2, 53));
    assert_eq!(fields(pit::lf(0)), (9, 3, 0));
    assert_eq!(fields(pit::rf(180)), (9, 4, 180));
    assert_eq!(fields(pit::lr(165)), (9, 5, 165));
    assert_eq!(fields(pit::rr(0)), (9, 6, 0));
    assert_eq!(fields(pit::clear_tires()), (9, 7, 0));
    assert_eq!(fields(pit::fr()), (9, 8, 0));
    assert_eq!(fields(pit::clear_ws()), (9, 9, 0));
    assert_eq!(fields(pit::clear_fr()), (9, 10, 0));
    assert_eq!(fields(pit::clear_fuel()), (9, 11, 0));
}

#[test]
fn pit_service_toggles() {
    assert_eq!(fields(clean_windshield::on()), (9, 1, 0));
    assert_eq!(fields(clean_windshield::off()), (9, 9, 0));
    assert_eq!(fields(fast_repair::on()), (9, 8, 0));
    assert_eq!(fields(fast_repair::off()), (9, 10, 0));
    assert_eq!(fields(refueling::on()), (9, 2, 0));
    assert_eq!(fields(refueling::on_with_liters(40)), (9, 2, 40));
    assert_eq!(fields(refueling::off()), (9, 11, 0));
    assert_eq!(fields(tires::on(TireCorner::LeftFront)), (9, 3, 0));
    assert_eq!(fields(tires::on_with_kpa(TireCorner::RightFront, 170)), (9, 4, 170));
    assert_eq!(fields(tires::on(TireCorner::LeftRear)), (9, 5, 0));
    assert_eq!(fields(tires::on_with_kpa(TireCorner::RightRear, 175)), (9, 6, 175));
    assert_eq!(fields(tires::off()), (9, 7, 0));
}

#[test]
fn pit_command_values_encode_their_subcode_and_amount() {
    assert_eq!(fields(PitCommand::Clear.broadcast_params()), (9, 0, 0));
    assert_eq!(fields(PitCommand::Fuel(Some(60)).broadcast_params()), (9, 2, 60));
    assert_eq!(fields(PitCommand::Fuel(None).broadcast_params()), (9, 2, 0));
    assert_eq!(fields(PitCommand::LeftFront(Some(150)).broadcast_params()), (9, 3, 150));
    assert_eq!(fields(PitCommand::RightRear(None).broadcast_params()), (9, 6, 0));
    assert_eq!(fields(PitCommand::ClearFastRepair.broadcast_params()), (9, 10, 0));
    assert_eq!(PitCommand::ClearFuel.message_code(), 11);
}

#[test]
fn reload_texture_commands() {
    assert_eq!(fields(reload_textures::all()), (7, 0, 0));
    assert_eq!(fields(reload_textures::car(14)), (7, 1, 14));
    assert_eq!(fields(ReloadTexturesMode::All.payload()), (7, 0, 0));
    assert_eq!(fields(ReloadTexturesMode::CarIdx(14).payload()), (7, 1, 14));
}

#[test]
fn replay_speed_commands() {
    assert_eq!(fields(replay::play()), (3, 1, 0));
    assert_eq!(fields(replay::pause()), (3, 0, 0));
    // A negative speed travels as its 16-bit two's complement.
    assert_eq!(fields(replay::rewind()), (3, 0xFFFF, 0));
    assert_eq!(fields(replay::fast_forward(4)), (3, 4, 0));
    assert_eq!(fields(replay::fast_rewind(4)), (3, 0xFFFC, 0));
    assert_eq!(fields(replay::slow_forward(2)), (3, 2, 1));
    assert_eq!(fields(replay::slow_rewind(16)), (3, 0xFFF0, 1));
    assert_eq!(fields(replay::play_with_speed(-3, true)), (3, 0xFFFD, 1));
}

#[test]
fn replay_position_and_search_commands() {
    assert_eq!(fields(replay::set_play_position(PlayPosition::Begin, 600)), (4, 0, 600));
    assert_eq!(fields(replay::set_play_position(PlayPosition::Current, -60)), (4, 1, -60));
    assert_eq!(fields(replay::set_play_position(PlayPosition::End, 0)), (4, 2, 0));
    assert_eq!(fields(replay::search_session_time(2, 90500)), (12, 2, 90500));
    assert_eq!(fields(replay::clear_replay_tape()), (6, 0, 0));
    assert_eq!(fields(replay::search_to_start()), (5, 0, 0));
    assert_eq!(fields(replay::search_to_end()), (5, 1, 0));
    assert_eq!(fields(replay::search_prev_session()), (5, 2, 0));
    assert_eq!(fields(replay::search_next_session()), (5, 3, 0));
    assert_eq!(fields(replay::search_prev_lap()), (5, 4, 0));
    assert_eq!(fields(replay::search_next_lap()), (5, 5, 0));
    assert_eq!(fields(replay::search_prev_frame()), (5, 6, 0));
    assert_eq!(fields(replay::search_next_frame()), (5, 7, 0));
    assert_eq!(fields(replay::search_prev_incident()), (5, 8, 0));
    assert_eq!(fields(replay::search_next_incident()), (5, 9, 0));
}

#[test]
fn telemetry_and_video_commands() {
    assert_eq!(fields(telemetry::start()), (10, 1, 0));
    assert_eq!(fields(telemetry::stop()), (10, 0, 0));
    assert_eq!(fields(telemetry::restart()), (10, 2, 0));
    assert_eq!(fields(video::trigger_screen_shot()), (13, 0, 0));
    assert_eq!(fields(video::start_video_capture()), (13, 1, 0));
    assert_eq!(fields(video::end_video_capture()), (13, 2, 0));
    assert_eq!(fields(video::toggle_video_capture()), (13, 3, 0));
    assert_eq!(fields(video::show_video_timer()), (13, 4, 0));
    assert_eq!(fields(video::hide_video_timer()), (13, 5, 0));
}
