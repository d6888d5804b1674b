use chess_rs::board::{Board, BoardPerspective};
use chess_rs::game::{Game, Move};
use chess_rs::pieces::{Piece, PieceType};

#[test]
fn lib_init_board() {
    let  board = Board::default();
    println!("{}", board.to_string(BoardPerspective::Black));
    println!();
    println!("{}", board.to_string(BoardPerspective::White));
}

#[test]
fn lib_print_squares() {
    let board = Board::default();
    board.squares.iter().for_each(|rank| rank.iter().for_each(|square| {
        println!("***********************************\n{}", square.to_string());
    }));
}

#[test]
fn lib_valid_pawn_move() {
    let mut game = Game::new(3600);
    let mut board = game.board;
    let chess_move = match Move::try_from("e2e3") {
        Ok(cm) => cm,
        Err(err) => panic!("{}", err.as_str()),
    };
    let player = &mut game.players.0;
    let move_result = board.execute_move(&chess_move, player);
    println!("{}", board.to_string(BoardPerspective::Black));
    println!();
    println!("{}", board.to_string(BoardPerspective::White));
    assert!(move_result.is_ok(), "{}", move_result.unwrap_err().as_str());
}

#[test]
fn lib_valid_pawn_double_move() {
    let mut game = Game::new(3600);
    let mut board = game.board;
    let chess_move = match Move::try_from("e2e4") {
        Ok(cm) => cm,
        Err(err) => panic!("{}", err.as_str()),
    };
    let player = &mut game.players.0;
    let move_result = board.execute_move(&chess_move, player);
    println!("{}", board.to_string(BoardPerspective::Black));
    println!();
    println!("{}", board.to_string(BoardPerspective::White));
    println!("Can Passant: {}", board.can_passant.unwrap().to_string());
    assert!(move_result.is_ok(), "{}", move_result.unwrap_err().as_str());
}

#[test]
fn lib_valid_passant() {
    let mut game = Game::new(3600);
    let mut board = game.board;
    let chess_move = match Move::try_from("e2e4") {
        Ok(cm) => cm,
        Err(err) => panic!("{}", err.as_str()),
    };
    let chess_move2 = match Move::try_from("d4e3") {
        Ok(cm) => cm,
        Err(err) => panic!("{}", err.as_str()),
    };
    let player = &mut game.players.0;
    let player2 = &mut game.players.1;
    board.squares[3][3].piece = Some(Piece::new(player2.color, PieceType::Pawn));
    let _ = board.execute_move(&chess_move, player);
    println!("{}", board.to_string(BoardPerspective::White));
    let move_result = board.execute_move(&chess_move2, player2);
    println!("{}", board.to_string(BoardPerspective::White));
    assert!(move_result.is_ok(), "{}", move_result.unwrap_err().as_str());
}

#[test]
fn lib_valid_bishop_move() {
    let mut game = Game::new(3600);
    let mut board = game.board;
    let chess_move = match Move::try_from("Bc1a3") {
        Ok(cm) => cm,
        Err(err) => panic!("{}", err.as_str()),
    };
    let player = &mut game.players.0;
    board.squares[1][1].piece = None;
    let move_result = board.execute_move(&chess_move, player);
    println!("{}", board.to_string(BoardPerspective::Black));
    println!();
    println!("{}", board.to_string(BoardPerspective::White));
    assert!(move_result.is_ok(), "{}", move_result.unwrap_err().as_str());
}

#[test]
fn lib_valid_knight_move() {
    let mut game = Game::new(3600);
    let mut board = game.board;
    let chess_move = match Move::try_from("Ng1f3") {
        Ok(cm) => cm,
        Err(err) => panic!("{}", err.as_str()),
    };
    let player = &mut game.players.0;
    let move_result = board.execute_move(&chess_move, player);
    println!("{}", board.to_string(BoardPerspective::Black));
    println!();
    println!("{}", board.to_string(BoardPerspective::White));
    assert!(move_result.is_ok(), "{}", move_result.unwrap_err().as_str());
}

#[test]
fn lib_valid_rook_move() {
    let mut game = Game::new(3600);
    let mut board = game.board;
    let chess_move = match Move::try_from("Ra1a6") {
        Ok(cm) => cm,
        Err(err) => panic!("{}", err.as_str()),
    };
    let player = &mut game.players.0;
    board.squares[1][0].piece = None;
    let move_result = board.execute_move(&chess_move, player);
    println!("{}", board.to_string(BoardPerspective::Black));
    println!();
    println!("{}", board.to_string(BoardPerspective::White));
    assert!(move_result.is_ok(), "{}", move_result.unwrap_err().as_str());
}

#[test]
fn lib_promotion() {
    let mut game = Game::new(3600);
    let mut board = game.board;
    let chess_move = match Move::try_from("a7a8=Q") {
        Ok(cm) => cm,
        Err(err) => panic!("{}", err.as_str()),
    };
    let player = &mut game.players.0;
    board.squares[7][0].piece = None;
    board.squares[6][0].piece = Some(Piece {
        color: player.color(),
        piece_type: PieceType::Pawn,
    });
    let executed_move = board.execute_move(&chess_move, player);
    println!("{}", board.to_string(BoardPerspective::Black));
    println!();
    println!("{}", board.to_string(BoardPerspective::White));
    assert!(executed_move.is_ok(), "{}", executed_move.unwrap_err().as_str());
}
