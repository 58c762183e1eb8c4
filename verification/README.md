# mcp_scheduling

A scheduling engine verified with Verus: resources, bookings with conflict
detection, shifts, time off and blackouts, free-time search, public holidays,
and working-hour overlap across timezones.

- `src/` is the verified library. `text` gives `str`'s byte order and prefix
  tests; `types` and `store` hold the records and the two checks every booking
  goes through; `server` holds the tools that change the store; `slots`
  computes free windows; `holidays` and `zones` hold the calendar tables;
  `clock` reads ISO date-times to measure free windows; `laws` proves what
  holds across operations (no double booking or double shift, leave and
  blackouts refuse bookings, reschedules and shifts, free windows avoid
  bookings and last as long as asked, creating and then cancelling a booking
  leaves availability as it was, the overlap window is the intersection of
  the participants' windows, holidays ignore the case of the country code and
  another year changes only the year of each date).
- A zone outside the scheduler's table is read as UTC (offset 0).
- `app/` is the MCP server around the library: JSON arguments and replies,
  and the lock around the shared state.
- `tests/` runs the library on concrete schedules.
