pub mod seqs;
pub mod text;
