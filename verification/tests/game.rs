use barebone_game::game::{BareBoneGame, Resources};
use barebone_game::pipeline::{
    render_target_handle, CommandQueueDesc, DescriptorHeapDesc, SwapChainDesc,
};
use barebone_game::stage::{Event, Stage, Step};
use barebone_game::window::WindowDesc;
use windows::Win32::Foundation::{E_FAIL, E_NOINTERFACE, S_FALSE};
use windows::Win32::UI::WindowsAndMessaging::{WM_PAINT, WM_QUIT};

fn drive(game: &mut BareBoneGame, events: &[Event]) -> Vec<Step> {
    let mut steps = vec![game.step()];
    for event in events {
        assert!(game.accepts(event), "{:?} not accepted at {:?}", event, game.stage);
        steps.push(game.advance(*event));
    }
    steps
}

fn bring_up() -> Vec<Event> {
    vec![
        Event::Window { hwnd: 0x51 },
        Event::Created { handle: 0xF0 },
        Event::Created { handle: 0xA0 },
        Event::Probed { code: S_FALSE.0 },
        Event::Created { handle: 0xD0 },
        Event::Created { handle: 0xC0 },
        Event::Created { handle: 0xC1 },
        Event::Created { handle: 0x5C },
        Event::Heap { start: 0x4000, increment: 32 },
        Event::Created { handle: 0xB0 },
        Event::Created { handle: 0xB1 },
        Event::Done,
    ]
}

#[test]
fn new_game_holds_nothing_and_awaits_its_window() {
    let game = BareBoneGame::new(String::from("Hello"), 800, 600);
    assert_eq!(game.title, "Hello");
    assert_eq!(game.width, 800);
    assert_eq!(game.height, 600);
    assert_eq!(game.resources, None);
    assert_eq!(game.stage, Stage::Window);
    assert_eq!(game.step(), Step::CreateWindow { window: WindowDesc::new(800, 600) });
}

#[test]
fn new_game_takes_any_title_and_size() {
    let game = BareBoneGame::new(String::new(), 0, u32::MAX);
    assert_eq!(game.title, "");
    assert_eq!(game.width, 0);
    assert_eq!(game.height, u32::MAX);
    assert_eq!(game.resources, None);
}

#[test]
fn calls_come_in_the_order_of_bring_up() {
    let mut game = BareBoneGame::new(String::from("Hello"), 800, 600);
    let steps = drive(&mut game, &bring_up());
    assert_eq!(
        steps,
        vec![
            Step::CreateWindow { window: WindowDesc::new(800, 600) },
            Step::CreateFactory,
            Step::EnumAdapter { index: 0 },
            Step::ProbeAdapter { feature_level: 0xc100 },
            Step::CreateDevice { feature_level: 0xc100 },
            Step::CreateCommandQueue { queue: CommandQueueDesc::new() },
            Step::CreateCommandAllocator { list_type: 0 },
            Step::CreateSwapChain { chain: SwapChainDesc::new(2, 800, 600) },
            Step::CreateDescriptorHeap { heap: DescriptorHeapDesc::new(2) },
            Step::CreateRenderTarget { index: 0, start: 0x4000, increment: 32 },
            Step::CreateRenderTarget { index: 1, start: 0x4000, increment: 32 },
            Step::ShowWindow { command: 5 },
            Step::PeekMessage { filter_min: 0, filter_max: 0, remove: 1 },
        ]
    );
    assert_eq!(game.resources, None);
}

#[test]
fn views_of_the_two_buffers_lie_one_increment_apart() {
    let mut game = BareBoneGame::new(String::from("Hello"), 800, 600);
    let steps = drive(&mut game, &bring_up());
    let handles: Vec<Option<usize>> = steps
        .iter()
        .filter_map(|step| match step {
            Step::CreateRenderTarget { index, start, increment } => {
                Some(render_target_handle(*start, *increment, *index))
            }
            _ => None,
        })
        .collect();
    assert_eq!(handles, vec![Some(0x4000), Some(0x4020)]);
}

#[test]
fn game_holds_its_resources_once_the_quit_message_is_dispatched() {
    let mut game = BareBoneGame::new(String::from("Hello"), 800, 600);
    drive(&mut game, &bring_up());
    let steps = drive(
        &mut game,
        &[
            Event::Peeked { available: 0, message: 0 },
            Event::Peeked { available: 1, message: WM_PAINT },
            Event::Done,
            Event::Peeked { available: 1, message: WM_QUIT },
        ],
    );
    assert_eq!(
        steps,
        vec![
            Step::PeekMessage { filter_min: 0, filter_max: 0, remove: 1 },
            Step::PeekMessage { filter_min: 0, filter_max: 0, remove: 1 },
            Step::DispatchMessage,
            Step::PeekMessage { filter_min: 0, filter_max: 0, remove: 1 },
            Step::DispatchMessage,
        ]
    );
    assert_eq!(game.resources, None);
    assert_eq!(game.advance(Event::Done), Step::Finish);
    let made = Resources { hwnd: 0x51, factory: 0xF0, adapter: 0xA0, device: 0xD0 };
    assert_eq!(game.resources, Some(made));
    assert_eq!(game.stage, Stage::Finished { made });
    assert_eq!(game.step(), Step::Finish);
    assert_eq!(game.title, "Hello");
    assert_eq!(game.width, 800);
    assert_eq!(game.height, 600);
}

#[test]
fn finished_game_takes_no_more_events() {
    let mut game = BareBoneGame::new(String::from("Hello"), 800, 600);
    drive(&mut game, &bring_up());
    drive(&mut game, &[Event::Peeked { available: 1, message: WM_QUIT }, Event::Done]);
    assert!(!game.accepts(&Event::Done));
    assert!(!game.accepts(&Event::Peeked { available: 1, message: WM_QUIT }));
    assert!(!game.accepts(&Event::Created { handle: 1 }));
}

#[test]
fn device_is_made_on_the_adapter_that_passed() {
    let mut game = BareBoneGame::new(String::from("Hello"), 800, 600);
    let steps = drive(
        &mut game,
        &[
            Event::Window { hwnd: 0x51 },
            Event::Created { handle: 0xF0 },
            Event::Created { handle: 0xA0 },
            Event::Probed { code: E_FAIL.0 },
            Event::Created { handle: 0xA1 },
            Event::Probed { code: E_NOINTERFACE.0 },
            Event::Created { handle: 0xA2 },
            Event::Probed { code: 0 },
            Event::Created { handle: 0xD0 },
        ],
    );
    assert_eq!(
        steps[2..9],
        [
            Step::EnumAdapter { index: 0 },
            Step::ProbeAdapter { feature_level: 0xc100 },
            Step::EnumAdapter { index: 1 },
            Step::ProbeAdapter { feature_level: 0xc100 },
            Step::EnumAdapter { index: 2 },
            Step::ProbeAdapter { feature_level: 0xc100 },
            Step::CreateDevice { feature_level: 0xc100 },
        ]
    );
    assert_eq!(
        game.stage,
        Stage::CommandQueue {
            made: Resources { hwnd: 0x51, factory: 0xF0, adapter: 0xA2, device: 0xD0 }
        }
    );
}

#[test]
fn failed_factory_fails_the_game() {
    let mut game = BareBoneGame::new(String::from("Hello"), 800, 600);
    let steps = drive(&mut game, &[Event::Window { hwnd: 0x51 }, Event::Failed { code: E_FAIL.0 }]);
    assert_eq!(steps[2], Step::Fail { code: E_FAIL.0 });
    assert_eq!(game.stage, Stage::Failed { code: E_FAIL.0 });
    assert_eq!(game.step(), Step::Fail { code: E_FAIL.0 });
    assert_eq!(game.resources, None);
    assert!(!game.accepts(&Event::Created { handle: 1 }));
    assert!(!game.accepts(&Event::Failed { code: E_FAIL.0 }));
}

#[test]
fn failed_swap_chain_fails_the_game() {
    let mut game = BareBoneGame::new(String::from("Hello"), 800, 600);
    drive(&mut game, &bring_up()[..7]);
    assert_eq!(game.step(), Step::CreateSwapChain { chain: SwapChainDesc::new(2, 800, 600) });
    assert_eq!(
        game.advance(Event::Failed { code: E_NOINTERFACE.0 }),
        Step::Fail { code: E_NOINTERFACE.0 }
    );
    assert_eq!(game.resources, None);
    assert_eq!(game.title, "Hello");
}

#[test]
fn missing_back_buffer_fails_the_game() {
    let mut game = BareBoneGame::new(String::from("Hello"), 800, 600);
    drive(&mut game, &bring_up()[..9]);
    assert_eq!(game.step(), Step::CreateRenderTarget { index: 0, start: 0x4000, increment: 32 });
    assert_eq!(game.advance(Event::Failed { code: E_FAIL.0 }), Step::Fail { code: E_FAIL.0 });
    assert_eq!(game.stage, Stage::Failed { code: E_FAIL.0 });
    assert_eq!(game.resources, None);
    assert!(!game.accepts(&Event::Done));
}

#[test]
fn missing_second_back_buffer_fails_the_game() {
    let mut game = BareBoneGame::new(String::from("Hello"), 800, 600);
    drive(&mut game, &bring_up()[..10]);
    assert_eq!(game.step(), Step::CreateRenderTarget { index: 1, start: 0x4000, increment: 32 });
    assert_eq!(
        game.advance(Event::Failed { code: E_NOINTERFACE.0 }),
        Step::Fail { code: E_NOINTERFACE.0 }
    );
    assert_eq!(game.stage, Stage::Failed { code: E_NOINTERFACE.0 });
    assert_eq!(game.resources, None);
    assert!(!game.accepts(&Event::Done));
    assert!(!game.accepts(&Event::Peeked { available: 1, message: WM_QUIT }));
}

#[test]
fn game_without_an_adapter_cannot_go_on() {
    let mut game = BareBoneGame::new(String::from("Hello"), 800, 600);
    drive(&mut game, &bring_up()[..2]);
    assert_eq!(game.step(), Step::EnumAdapter { index: 0 });
    assert!(!game.accepts(&Event::Failed { code: E_FAIL.0 }));
    assert!(game.accepts(&Event::Created { handle: 0xA0 }));
}
